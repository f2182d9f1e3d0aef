//! The errors that writers and readers report.

use vstd::prelude::*;

verus! {

/// Why an operation on a stored object failed.
#[derive(Debug, PartialEq, Eq)]
pub enum Error {
    /// The bucket could not be reached, or answered with something that a
    /// reader cannot work with.
    InvalidContext(String),
    /// The bytes read do not have the checksum that the bucket reported.
    VerificationFailure(String),
}

/// An [`Error`] with its message as a sequence of characters.
pub enum ErrorView {
    InvalidContext(Seq<char>),
    VerificationFailure(Seq<char>),
}

impl View for Error {
    type V = ErrorView;

    open spec fn view(&self) -> ErrorView {
        match self {
            Error::InvalidContext(message) => ErrorView::InvalidContext(message@),
            Error::VerificationFailure(message) => ErrorView::VerificationFailure(message@),
        }
    }
}

/// The message of a failed verification: it names the checksum that was
/// expected and the one that was computed.
pub open spec fn discrepancy_message(expected: Seq<char>, computed: Seq<char>) -> Seq<char> {
    "checksum discrepancy: expected "@ + expected + " but got "@ + computed
}

impl Error {
    /// An `InvalidContext` whose message is `what`, a colon, a space and
    /// `cause`: the failure of a request, wrapped.
    pub fn wrap(what: &str, cause: &str) -> (error: Error)
        ensures
            error@ == ErrorView::InvalidContext(what@ + ": "@ + cause@),
    {
        let mut message = String::from_str(what);
        message.append(": ");
        message.append(cause);
        Error::InvalidContext(message)
    }

    /// The error of a verification that expected `expected` and computed
    /// `computed`.
    pub fn discrepancy(expected: &str, computed: &str) -> (error: Error)
        ensures
            error@ == ErrorView::VerificationFailure(discrepancy_message(expected@, computed@)),
    {
        let mut message = String::from_str("checksum discrepancy: expected ");
        message.append(expected);
        message.append(" but got ");
        message.append(computed);
        Error::VerificationFailure(message)
    }
}

} // verus!
