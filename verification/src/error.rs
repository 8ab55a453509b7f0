//! The failures that the service reports to its caller.

use vstd::prelude::*;

verus! {

/// What went wrong, as far as a caller may branch on it.
#[derive(Clone, Copy, Debug, PartialEq, Eq, Structural)]
pub enum ErrorKind {
    /// The credential facility of the operating system could not be reached.
    StoreUnavailable,
    /// The facility was reached, but reading the secret failed.
    StoreReadFailed,
    /// The facility was reached, but writing or removing the secret failed.
    StoreWriteFailed,
    /// The method of a relay request is not an HTTP method token.
    InvalidMethod,
    /// The request never produced a response: name resolution, connection,
    /// TLS or another failure below HTTP.
    TransportError,
    /// A response arrived, but its payload could not be read to the end.
    BodyReadError,
}

/// A failure: its kind, and the diagnostic text of whatever failed underneath.
///
/// The text is carried for operators. It is passed through untouched and never
/// inspected.
#[derive(Clone, Debug, PartialEq, Eq)]
pub struct Error {
    pub kind: ErrorKind,
    pub message: String,
}

/// The mathematical content of an [`Error`].
pub ghost struct ErrorView {
    pub kind: ErrorKind,
    pub message: Seq<char>,
}

impl View for Error {
    type V = ErrorView;

    open spec fn view(&self) -> ErrorView {
        ErrorView { kind: self.kind, message: self.message@ }
    }
}

} // verus!
