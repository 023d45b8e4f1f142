use vstd::prelude::*;

use core::convert::Infallible;
use parity_scale_codec::Output;

verus! {

/// Relies on `<Vec<u8> as parity_scale_codec::Output>::write`, which appends
/// the bytes to the vector.
#[verifier::external_body]
fn output_write(dst: &mut Vec<u8>, bytes: &[u8])
    ensures
        final(dst)@ == old(dst)@ + bytes@,
{
    Output::write(dst, bytes)
}

/// Hands every byte written to it on to a SCALE output, unchanged and at once.
pub struct OutputToWrite {
    out: Vec<u8>,
}

impl View for OutputToWrite {
    type V = Seq<u8>;

    /// What the output holds.
    closed spec fn view(&self) -> Seq<u8> {
        self.out@
    }
}

impl OutputToWrite {
    pub fn new(out: Vec<u8>) -> (r: Self)
        ensures
            r@ == out@,
    {
        OutputToWrite { out }
    }

    /// Appends `bytes` to the output. The error type has no value: a write
    /// never fails.
    pub fn write(&mut self, bytes: &[u8]) -> (r: Result<(), Infallible>)
        ensures
            r is Ok,
            final(self)@ == old(self)@ + bytes@,
    {
        output_write(&mut self.out, bytes);
        Ok(())
    }

    /// Gives the output back.
    pub fn into_inner(self) -> (r: Vec<u8>)
        ensures
            r@ == self@,
    {
        self.out
    }
}

} // verus!
