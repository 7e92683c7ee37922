//! A failure as the client sees it: what the service reported, or what went
//! wrong on the way.

use vstd::prelude::*;

verus! {

/// Which side of the credential check a rejection falls on.
#[derive(Debug, Clone, Copy, PartialEq, Eq, Structural)]
pub enum Auth {
    Authentication,
    Authorization,
}

/// The class of a failure. The last two arise in the client alone: the
/// request could not be made, or the answer could not be read.
#[derive(Debug, Clone, Copy, PartialEq, Eq, Structural)]
pub enum ErrorTypes {
    ValidationError,
    DbError,
    Auth(Auth),
    JwtError,
    RequestError,
    DeserializeError,
}

impl Default for ErrorTypes {
    fn default() -> (t: Self)
        ensures
            t == ErrorTypes::RequestError,
    {
        ErrorTypes::RequestError
    }
}

/// A failure as the client sees it.
#[derive(Debug, Clone, PartialEq, Eq)]
pub struct ErrorResponse {
    pub cause: Option<String>,
    pub message: Option<String>,
    pub error_type: ErrorTypes,
}

impl Default for ErrorResponse {
    /// A failure of which nothing is known: the request went wrong.
    fn default() -> (e: Self)
        ensures
            e.cause is None,
            e.message is None,
            e.error_type == ErrorTypes::RequestError,
    {
        ErrorResponse { cause: None, message: None, error_type: ErrorTypes::RequestError }
    }
}

impl ErrorResponse {
    pub fn new(cause: Option<String>, message: Option<String>, error_type: ErrorTypes) -> (e:
        Self)
        ensures
            e.cause == cause,
            e.message == message,
            e.error_type == error_type,
    {
        ErrorResponse { cause, message, error_type }
    }
}

} // verus!
