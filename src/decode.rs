use vstd::prelude::*;

use crate::error::Error;
use crate::source::short_read_message;
use crate::wrap::Wrap;
use serde_scale::Error as ScaleError;

verus! {

/// The error of `serde_scale`'s deserializer, with its variants visible.
#[verifier::external_type_specification]
#[verifier::reject_recursive_types(E)]
pub struct ExScaleError<E>(ScaleError<E>);

/// Carried by `serde_scale::Error::InvalidUnicode`; never opened.
#[verifier::external_type_specification]
#[verifier::external_body]
pub struct ExUtf8Error(core::str::Utf8Error);

/// Carried by `serde_scale::Error::Other`; never opened.
#[verifier::external_type_specification]
#[verifier::external_body]
pub struct ExOtherError(serde_scale::OtherError);

/// Why a decode failed, in the two tiers that the SCALE side tells apart.
#[derive(Debug, Clone, Copy, PartialEq, Eq)]
pub enum DecodeFailure {
    /// The byte source could not supply the bytes; its description is kept.
    Io(Error),
    /// The bytes were there but did not form a value of the target type.
    Malformed,
}

/// The tier of a failure of `serde_scale`'s deserializer: its `Io` variant
/// carries the byte source's own error, here its description; every other
/// variant is a failure of structure.
pub open spec fn scale_failure(e: ScaleError<&'static str>) -> DecodeFailure {
    match e {
        ScaleError::Io(m) => DecodeFailure::Io(Error(m)),
        _ => DecodeFailure::Malformed,
    }
}

fn failure_of(e: ScaleError<&'static str>) -> (r: DecodeFailure)
    ensures
        r == scale_failure(e),
{
    match e {
        ScaleError::Io(m) => DecodeFailure::Io(Error(m)),
        _ => DecodeFailure::Malformed,
    }
}

/// The description that a structural failure is reduced to.
pub open spec fn malformed_message() -> Seq<char> {
    "Deserialization failed"@
}

/// The description that reaches the SCALE side for a failure.
pub open spec fn failure_message(f: DecodeFailure) -> Seq<char> {
    match f {
        DecodeFailure::Io(e) => e.0@,
        DecodeFailure::Malformed => malformed_message(),
    }
}

impl DecodeFailure {
    /// The error handed to the SCALE side: an I/O failure keeps its own
    /// description, any other is flattened to one generic description.
    pub fn into_error(self) -> (r: Error)
        ensures
            r.0@ == failure_message(self),
            self matches DecodeFailure::Io(e) ==> r == e,
    {
        match self {
            DecodeFailure::Io(e) => e,
            DecodeFailure::Malformed => Error("Deserialization failed"),
        }
    }
}

/// Finishes a decode from the outcome of the `serde` deserializer.
pub fn finish_decode<T>(outcome: Result<T, DecodeFailure>) -> (r: Result<Wrap<T>, Error>)
    ensures
        outcome matches Ok(v) ==> r == Ok::<Wrap<T>, Error>(Wrap(v)),
        outcome matches Err(f) ==> r matches Err(e) && e.0@ == failure_message(f),
        outcome matches Err(DecodeFailure::Io(io)) ==> r == Err::<Wrap<T>, Error>(io),
{
    match outcome {
        Ok(v) => Ok(Wrap(v)),
        Err(f) => Err(f.into_error()),
    }
}

/// Turns what `serde_scale`'s deserializer returned, over a byte source whose
/// errors are descriptions, into the result of a decode. A value is wrapped
/// as it is; the failure is classified and then mapped to an error by
/// [`finish_decode`].
pub fn decode_outcome<T>(outcome: Result<T, ScaleError<&'static str>>) -> (r: Result<Wrap<T>, Error>)
    ensures
        outcome matches Ok(v) ==> r == Ok::<Wrap<T>, Error>(Wrap(v)),
        outcome matches Err(e) ==> r matches Err(x) && x.0@ == failure_message(scale_failure(e)),
        outcome matches Err(ScaleError::Io(m)) ==> r == Err::<Wrap<T>, Error>(Error(m)),
        (outcome is Err && !(outcome->Err_0 is Io)) ==> (r matches Err(x) && x.0@ == malformed_message()),
{
    match outcome {
        Ok(v) => finish_decode(Ok(v)),
        Err(e) => finish_decode(Err(failure_of(e))),
    }
}

/// A decode that runs out of input reaches the SCALE side with the byte
/// source's own description, which is not empty and differs from the generic
/// description of malformed input.
pub proof fn lemma_short_read_failure_is_kept(e: Error)
    requires
        e.0@ == short_read_message(),
    ensures
        failure_message(DecodeFailure::Io(e)) == short_read_message(),
        short_read_message().len() > 0,
        short_read_message() != malformed_message(),
{
    reveal_strlit("Not enough data to fill buffer");
    reveal_strlit("Deserialization failed");
    assert(short_read_message()[0] != malformed_message()[0]);
}

} // verus!
