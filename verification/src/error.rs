//! Kinds of failure, and the values that carry them.
use vstd::prelude::*;

verus! {

/// What went wrong, as far as any decision here depends on it.
#[derive(Clone, Copy, Debug, PartialEq, Eq, Structural)]
pub enum ErrorKind {
    /// No entry stands at the name, or a component leading to it is missing.
    NotFound,
    /// An entry already occupies the name.
    AlreadyExists,
    /// A directory stands where none may, or something else where one must.
    InvalidEntryKind,
    /// The caller lacks the right to do this.
    PermissionDenied,
    /// Any other failure of the underlying operation.
    Other,
}

/// A failure of a primitive: its kind, and the error exactly as the driver got it.
///
/// No function of this crate reads or alters `source`; one that hands a failure
/// on hands on the same value.
#[derive(Debug, PartialEq, Eq)]
pub struct Failure<E> {
    pub kind: ErrorKind,
    pub source: E,
}

/// Why a request failed.
#[derive(Debug, PartialEq, Eq)]
pub enum Error<E> {
    /// A primitive failed; the failure is handed on as it came.
    Underlying(Failure<E>),
    /// The name is taken by something that is not a directory.
    NotADirectory,
}

impl<E> Error<E> {
    /// The kind of this error in the crate's taxonomy.
    pub open spec fn kind_spec(self) -> ErrorKind {
        match self {
            Error::Underlying(failure) => failure.kind,
            Error::NotADirectory => ErrorKind::InvalidEntryKind,
        }
    }

    /// The kind of this error: that of the failure underneath, or
    /// `InvalidEntryKind` for a name taken by a non-directory.
    pub fn kind(&self) -> (kind: ErrorKind)
        ensures
            kind == self.kind_spec(),
    {
        match self {
            Error::Underlying(failure) => failure.kind,
            Error::NotADirectory => ErrorKind::InvalidEntryKind,
        }
    }
}

} // verus!
