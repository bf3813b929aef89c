//! The closed set of ways in which an operation of this library fails.

use vstd::prelude::*;

verus! {

/// A convenient alias for the result type used by all fallible operations.
pub type NuclinoResult<T> = Result<T, NuclinoError>;

/// Errors returned by this crate's functions.
#[derive(Debug, Clone, PartialEq, Eq)]
pub enum NuclinoError {
    /// The API key was required from the process environment, but not found.
    ApiKeyNotFound,
    /// The service reported an error in the client's request (status below 500).
    ClientError {
        /// the HTTP status code
        status: u16,
        /// the message the service included with the error
        message: String,
    },
    /// The service reported an error on its own side (status 500 and above).
    ServerError {
        /// the HTTP status code
        status: u16,
        /// the message the service included with the error
        message: String,
    },
    /// The transport failed before any status was obtained; holds its message.
    RequestError(String),
    /// A local I/O failure; holds its message.
    IoError(String),
    /// A payload did not parse as JSON of the expected shape; holds the reason.
    JsonError(String),
    /// A successful response did not include a data field in its envelope.
    NoDataReturned,
    /// An invariant of this library was violated.
    ProgrammerError,
}

/// `e` is the error that an HTTP status `status` with message `message` maps to:
/// a client error below 500, a server error from 500 on.
pub open spec fn status_error(e: NuclinoError, status: u16, message: Seq<char>) -> bool {
    match e {
        NuclinoError::ClientError { status: s, message: m } => status < 500 && s == status
            && m@ == message,
        NuclinoError::ServerError { status: s, message: m } => status >= 500 && s == status
            && m@ == message,
        _ => false,
    }
}

/// Turns a failure status reported by the service into an error.
pub fn make_error(status: u16, message: String) -> (r: NuclinoError)
    ensures
        status_error(r, status, message@),
{
    if status < 500 {
        NuclinoError::ClientError { status, message }
    } else {
        NuclinoError::ServerError { status, message }
    }
}

} // verus!
