//! Lets a type with a `serde` implementation be encoded and decoded with the
//! SCALE codec of `parity-scale-codec`, through the `serde-scale` serializer.
//!
//! The library holds the byte bridges between the two interfaces and the
//! mapping of decode failures to errors, each with a verified contract.
mod decode;
mod error;
mod sink;
mod source;
mod wrap;

pub use decode::{
    decode_outcome, failure_message, finish_decode, lemma_short_read_failure_is_kept,
    malformed_message, scale_failure, DecodeFailure,
};
pub use error::Error;
pub use sink::OutputToWrite;
pub use source::{lemma_shorter_read_leaves_no_residue, short_read_message, InputToRead};
pub use wrap::Wrap;
