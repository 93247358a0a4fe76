//! Typed failures of the binary field codec and record decoders.

use vstd::prelude::*;

verus! {

/// The two ways a payload can fail to decode: the declared or implied
/// length exceeds the bytes that remain, or text content is not valid
/// UTF-8.  An unrecognized discriminator is not an error; dispatch
/// reports it as "no match" instead.
#[derive(Clone, Copy, Debug, PartialEq, Eq, Structural)]
pub enum ErrorKind {
    TruncatedInput,
    InvalidEncoding,
}

/// Error produced by the field codec and the record decoders.  The `kind`
/// carries the semantic cause, which the contracts pin down exactly; the
/// `message` is a human-readable diagnostic and is not specified.
#[derive(Clone, Debug)]
pub struct DeserializationError {
    pub kind: ErrorKind,
    pub message: String,
}

impl DeserializationError {
    /// Builds a truncation error with the given diagnostic text.
    pub fn truncated(message: &str) -> (r: DeserializationError)
        ensures
            r.kind == ErrorKind::TruncatedInput,
    {
        DeserializationError { kind: ErrorKind::TruncatedInput, message: message.to_owned() }
    }

    /// Builds an encoding error with the given diagnostic text.
    pub fn invalid_encoding(message: &str) -> (r: DeserializationError)
        ensures
            r.kind == ErrorKind::InvalidEncoding,
    {
        DeserializationError { kind: ErrorKind::InvalidEncoding, message: message.to_owned() }
    }
}

} // verus!
