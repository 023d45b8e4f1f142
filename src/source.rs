use vstd::prelude::*;

use crate::error::Error;
use parity_scale_codec::Input;

verus! {

/// Relies on `<&[u8] as parity_scale_codec::Input>::read`: it fills `into`
/// with the first bytes of `input` and moves `input` past them, or fails with
/// "Not enough data to fill buffer", leaving both as they were, when `input`
/// holds fewer bytes than `into`. The error is handed on as its description,
/// `parity_scale_codec::Error::what`.
#[verifier::external_body]
fn read_input<'a>(input: &mut &'a [u8], into: &mut Vec<u8>) -> (r: Result<(), &'static str>)
    ensures
        old(into)@.len() <= old(input)@.len() ==> {
            &&& r is Ok
            &&& final(into)@ == old(input)@.take(old(into)@.len() as int)
            &&& final(input)@ == old(input)@.skip(old(into)@.len() as int)
        },
        old(into)@.len() > old(input)@.len() ==> {
            &&& r matches Err(m) && m@ == short_read_message()
            &&& final(into)@ == old(into)@
            &&& final(input)@ == old(input)@
        },
{
    input.read(into.as_mut_slice()).map_err(|e| e.what())
}

/// The description of a read that asks for more bytes than are left.
pub open spec fn short_read_message() -> Seq<char> {
    "Not enough data to fill buffer"@
}

/// Reads exact byte counts from a byte slice into a buffer that is reused
/// from one read to the next.
pub struct InputToRead<'a> {
    input: &'a [u8],
    buffer: Vec<u8>,
}

impl<'a> InputToRead<'a> {
    /// The bytes not read yet.
    pub closed spec fn remaining(&self) -> Seq<u8> {
        self.input@
    }

    /// The bytes of the last successful read.
    pub closed spec fn last_read(&self) -> Seq<u8> {
        self.buffer@
    }

    /// `after` is `before` once `n` bytes have been read: the buffer holds
    /// exactly those bytes and the input has moved past them.
    pub open spec fn read_step(before: &Self, n: nat, after: &Self) -> bool {
        &&& n <= before.remaining().len()
        &&& after.last_read() == before.remaining().take(n as int)
        &&& after.remaining() == before.remaining().skip(n as int)
    }

    pub fn new(input: &'a [u8]) -> (r: Self)
        ensures
            r.remaining() == input@,
            r.last_read() == Seq::<u8>::empty(),
    {
        InputToRead { input, buffer: Vec::new() }
    }

    /// Reads exactly `n` bytes and hands them to `f`, or fails, with nothing
    /// read, when fewer than `n` bytes are left.
    pub fn read_map<R, F: FnOnce(&[u8]) -> R>(&mut self, n: usize, f: F) -> (r: Result<R, Error>)
        requires
            forall|b: &[u8]| b@.len() == n ==> f.requires((b,)),
        ensures
            n <= old(self).remaining().len() ==> {
                &&& Self::read_step(old(self), n as nat, final(self))
                &&& r matches Ok(v) && exists|b: &[u8]| b@ == final(self).last_read() && f.ensures((b,), v)
            },
            n > old(self).remaining().len() ==> {
                &&& r matches Err(e) && e.0@ == short_read_message()
                &&& final(self).remaining() == old(self).remaining()
            },
    {
        self.buffer.resize(n, 0);
        match read_input(&mut self.input, &mut self.buffer) {
            Ok(()) => {
                let bytes = self.buffer.as_slice();
                Ok(f(bytes))
            }
            Err(m) => Err(Error(m)),
        }
    }
}

/// Within one decode, a read of `n2` bytes that follows a longer read of `n1`
/// bytes sees the `n2` bytes just read and nothing left of the earlier read.
pub proof fn lemma_shorter_read_leaves_no_residue(
    a: InputToRead,
    b: InputToRead,
    c: InputToRead,
    n1: nat,
    n2: nat,
)
    requires
        InputToRead::read_step(&a, n1, &b),
        InputToRead::read_step(&b, n2, &c),
        n2 < n1,
    ensures
        c.last_read().len() == n2,
        c.last_read() == a.remaining().subrange(n1 as int, (n1 + n2) as int),
{
    assert(c.last_read() =~= a.remaining().subrange(n1 as int, (n1 + n2) as int));
}

} // verus!
