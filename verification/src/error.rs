//! The three-way failure taxonomy of the codec: base64 text the
//! decoder refused, text the UUID parser refused, or a decoded payload
//! of the wrong length. Every fallible conversion returns one of
//! these; nothing panics and nothing falls back to a default.

use vstd::prelude::*;

verus! {

/// The category of a conversion failure, detail stripped, for callers
/// that branch without matching the full diagnostic payload.
#[derive(Debug, Clone, Copy, PartialEq, Eq, Structural)]
pub enum ErrorKind {
    InvalidBase64,
    InvalidUuid,
    InvalidUuidSize,
}

/// A conversion failure, carrying the collaborating crate's own
/// diagnostic where one exists.
#[derive(Debug)]
pub enum Error {
    /// The input text is not valid base64 under the alphabet and
    /// padding rule in effect.
    InvalidBase64(base64::DecodeError),
    /// The input does not parse as a well-formed UUID.
    InvalidUuid(uuid::Error),
    /// Base64 decoding succeeded but yielded a byte count other
    /// than 16.
    InvalidUuidSize,
}

impl Error {
    /// The detail-stripped category of this failure.
    pub open spec fn kind_spec(&self) -> ErrorKind {
        match self {
            Error::InvalidBase64(_) => ErrorKind::InvalidBase64,
            Error::InvalidUuid(_) => ErrorKind::InvalidUuid,
            Error::InvalidUuidSize => ErrorKind::InvalidUuidSize,
        }
    }

    /// Reduces the failure to its category.
    pub fn kind(&self) -> (r: ErrorKind)
        ensures
            r == self.kind_spec(),
    {
        match self {
            Error::InvalidBase64(_) => ErrorKind::InvalidBase64,
            Error::InvalidUuid(_) => ErrorKind::InvalidUuid,
            Error::InvalidUuidSize => ErrorKind::InvalidUuidSize,
        }
    }
}

impl From<Error> for ErrorKind {
    fn from(e: Error) -> (r: ErrorKind) {
        e.kind()
    }
}

impl vstd::std_specs::convert::FromSpecImpl<Error> for ErrorKind {
    open spec fn obeys_from_spec() -> bool {
        true
    }

    open spec fn from_spec(e: Error) -> ErrorKind {
        e.kind_spec()
    }
}

impl From<base64::DecodeError> for Error {
    fn from(e: base64::DecodeError) -> (r: Error) {
        Error::InvalidBase64(e)
    }
}

impl vstd::std_specs::convert::FromSpecImpl<base64::DecodeError> for Error {
    open spec fn obeys_from_spec() -> bool {
        true
    }

    open spec fn from_spec(e: base64::DecodeError) -> Error {
        Error::InvalidBase64(e)
    }
}

impl From<uuid::Error> for Error {
    fn from(e: uuid::Error) -> (r: Error) {
        Error::InvalidUuid(e)
    }
}

impl vstd::std_specs::convert::FromSpecImpl<uuid::Error> for Error {
    open spec fn obeys_from_spec() -> bool {
        true
    }

    open spec fn from_spec(e: uuid::Error) -> Error {
        Error::InvalidUuid(e)
    }
}

} // verus!
