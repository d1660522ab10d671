//! The ways in which an operation of the library fails.

use crate::text::{decimal, push_decimal};
use vstd::prelude::*;
use vstd::string::StringExecFns;

verus! {

/// A failure of one operation. Every variant but `PayloadTooLarge` carries a
/// message for the user.
#[derive(Debug, Clone, PartialEq, Eq)]
pub enum LibraryError {
    /// An input path is missing or is not a directory.
    InvalidPath(String),
    /// Reading, writing, copying or deleting failed.
    IoError(String),
    /// The payload is not a readable ZIP archive.
    InvalidArchive(String),
    /// The payload is larger than the configured maximum.
    PayloadTooLarge { size: u64, limit: u64 },
    /// The download was refused or broke off.
    HttpError(String),
    /// No preset or mod has the identifier that was asked for.
    NotFound(String),
    /// A directory could not be renamed.
    RenameFailed(String),
    /// Metadata could not be encoded or decoded.
    SerializationError(String),
}

/// The kind of a failure, without its message.
#[derive(Debug, Clone, Copy, PartialEq, Eq, Structural)]
pub enum ErrorKind {
    InvalidPath,
    IoError,
    InvalidArchive,
    PayloadTooLarge,
    HttpError,
    NotFound,
    RenameFailed,
    SerializationError,
}

/// What opens the message of a payload that is too large.
pub open spec fn too_large_lead() -> Seq<char> {
    seq!['F', 'i', 'l', 'e', ' ', 't', 'o', 'o', ' ', 'l', 'a', 'r', 'g', 'e', ':', ' ']
}

/// What stands between the two numbers of that message.
pub open spec fn too_large_middle() -> Seq<char> {
    seq![' ', '>', ' ']
}

/// What closes that message.
pub open spec fn too_large_tail() -> Seq<char> {
    seq![' ', 'b', 'y', 't', 'e', 's']
}

/// The message of a failure: the one that it carries, or, for a payload that
/// is too large, `File too large: <size> > <limit> bytes`.
pub open spec fn message_of(error: LibraryError) -> Seq<char> {
    match error {
        LibraryError::InvalidPath(message) => message@,
        LibraryError::IoError(message) => message@,
        LibraryError::InvalidArchive(message) => message@,
        LibraryError::PayloadTooLarge { size, limit } => too_large_lead() + decimal(size as nat)
            + too_large_middle() + decimal(limit as nat) + too_large_tail(),
        LibraryError::HttpError(message) => message@,
        LibraryError::NotFound(message) => message@,
        LibraryError::RenameFailed(message) => message@,
        LibraryError::SerializationError(message) => message@,
    }
}

/// Whether `error` is a failure of this kind with this message.
pub open spec fn is_failure(error: LibraryError, kind: ErrorKind, message: Seq<char>) -> bool {
    error.kind() == kind && message_of(error) == message
}

impl LibraryError {
    /// The message for the user.
    pub fn message(&self) -> (text: String)
        ensures
            text@ == message_of(*self),
    {
        match self {
            LibraryError::InvalidPath(message) => message.clone(),
            LibraryError::IoError(message) => message.clone(),
            LibraryError::InvalidArchive(message) => message.clone(),
            LibraryError::PayloadTooLarge { size, limit } => {
                proof {
                    reveal_strlit("File too large: ");
                    reveal_strlit(" > ");
                    reveal_strlit(" bytes");
                }
                let mut text = String::from_str("File too large: ");
                push_decimal(&mut text, *size);
                text.append(" > ");
                push_decimal(&mut text, *limit);
                text.append(" bytes");
                text
            },
            LibraryError::HttpError(message) => message.clone(),
            LibraryError::NotFound(message) => message.clone(),
            LibraryError::RenameFailed(message) => message.clone(),
            LibraryError::SerializationError(message) => message.clone(),
        }
    }

    /// The kind of this failure.
    pub open spec fn spec_kind(&self) -> ErrorKind {
        match *self {
            LibraryError::InvalidPath(_) => ErrorKind::InvalidPath,
            LibraryError::IoError(_) => ErrorKind::IoError,
            LibraryError::InvalidArchive(_) => ErrorKind::InvalidArchive,
            LibraryError::PayloadTooLarge { .. } => ErrorKind::PayloadTooLarge,
            LibraryError::HttpError(_) => ErrorKind::HttpError,
            LibraryError::NotFound(_) => ErrorKind::NotFound,
            LibraryError::RenameFailed(_) => ErrorKind::RenameFailed,
            LibraryError::SerializationError(_) => ErrorKind::SerializationError,
        }
    }

    /// The kind of this failure.
    #[verifier::when_used_as_spec(spec_kind)]
    pub fn kind(&self) -> (kind: ErrorKind)
        ensures
            kind == self.spec_kind(),
    {
        match self {
            LibraryError::InvalidPath(_) => ErrorKind::InvalidPath,
            LibraryError::IoError(_) => ErrorKind::IoError,
            LibraryError::InvalidArchive(_) => ErrorKind::InvalidArchive,
            LibraryError::PayloadTooLarge { .. } => ErrorKind::PayloadTooLarge,
            LibraryError::HttpError(_) => ErrorKind::HttpError,
            LibraryError::NotFound(_) => ErrorKind::NotFound,
            LibraryError::RenameFailed(_) => ErrorKind::RenameFailed,
            LibraryError::SerializationError(_) => ErrorKind::SerializationError,
        }
    }
}

} // verus!
