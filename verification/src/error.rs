//! The errors that building an object can end in.

use vstd::prelude::*;
use vstd::string::*;

verus! {

/// The kind of an error.
#[derive(Clone, Copy, Debug, PartialEq, Eq, Structural)]
pub enum ErrorKind {
    /// Options that depend on each other were not given together.
    Configuration,
    /// Some text could not be parsed.
    Parse,
    /// The bytes of a key could not be decoded.
    KeyDecode,
    /// The name of a file cannot stand in a manifest.
    InvalidFileName,
}

/// An error that ends the building of an object.
#[derive(Debug, PartialEq, Eq)]
pub enum Error {
    /// Neither the end of the validity nor a number of days was given.
    MissingValidityEnd,
    /// Neither the next update nor a number of days until it was given.
    MissingNextUpdate,
    /// The text is no ROA prefix. Holds the whole diagnostic.
    InvalidRoaPrefix(String),
    /// The subject's public key could not be decoded.
    SubjectKeyDecode,
    /// A file for a manifest has no name of ASCII characters. Holds the
    /// position of the file among those given.
    IllegalFileName(usize),
}

impl Error {
    /// The kind of the error.
    pub open spec fn spec_kind(self) -> ErrorKind {
        match self {
            Error::MissingValidityEnd => ErrorKind::Configuration,
            Error::MissingNextUpdate => ErrorKind::Configuration,
            Error::InvalidRoaPrefix(_) => ErrorKind::Parse,
            Error::SubjectKeyDecode => ErrorKind::KeyDecode,
            Error::IllegalFileName(_) => ErrorKind::InvalidFileName,
        }
    }

    /// The kind of the error.
    pub fn kind(&self) -> (kind: ErrorKind)
        ensures
            kind == self.spec_kind(),
    {
        match self {
            Error::MissingValidityEnd => ErrorKind::Configuration,
            Error::MissingNextUpdate => ErrorKind::Configuration,
            Error::InvalidRoaPrefix(_) => ErrorKind::Parse,
            Error::SubjectKeyDecode => ErrorKind::KeyDecode,
            Error::IllegalFileName(_) => ErrorKind::InvalidFileName,
        }
    }
}

} // verus!
