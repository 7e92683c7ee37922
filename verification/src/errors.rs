//! The failure taxonomy shared by every request-handling path.
//!
//! Every rejection is a value of [`Error`]: a class ([`ErrorTypes`]), a
//! message meant for the client and an optional cause meant for the server's
//! diagnostic log only.

use vstd::prelude::*;

verus! {

/// Which side of the credential check a rejection falls on.
#[derive(Debug, Clone, Copy, PartialEq, Eq, Structural)]
pub enum Auth {
    /// No credential, or one that cannot be accepted ("unauthenticated").
    Authentication,
    /// The caller may not do this with what it presented ("unauthorized").
    Authorization,
}

/// The class of a failure; it alone decides the transport status.
#[derive(Debug, Clone, Copy, PartialEq, Eq, Structural)]
pub enum ErrorTypes {
    ValidationError,
    DbError,
    Auth(Auth),
    JwtError,
}

/// A typed failure.
#[derive(Debug, Clone, PartialEq, Eq)]
pub struct Error {
    /// Why it happened, for the diagnostic log.
    pub cause: Option<String>,
    /// What the client is told.
    pub message: Option<String>,
    pub error_type: ErrorTypes,
}

/// The mathematical content of an [`Error`].
pub struct ErrorView {
    pub cause: Option<Seq<char>>,
    pub message: Option<Seq<char>>,
    pub error_type: ErrorTypes,
}

/// The characters of an optional string.
pub open spec fn text_of(s: Option<String>) -> Option<Seq<char>> {
    match s {
        Some(t) => Some(t@),
        None => None,
    }
}

/// The transport status that goes with a class of failure.
pub open spec fn status_of(error_type: ErrorTypes) -> u16 {
    match error_type {
        ErrorTypes::ValidationError => 400,
        ErrorTypes::DbError => 500,
        ErrorTypes::Auth(Auth::Authentication) => 401,
        ErrorTypes::Auth(Auth::Authorization) => 403,
        ErrorTypes::JwtError => 500,
    }
}

impl View for Error {
    type V = ErrorView;

    open spec fn view(&self) -> ErrorView {
        ErrorView {
            cause: text_of(self.cause),
            message: text_of(self.message),
            error_type: self.error_type,
        }
    }
}

impl ErrorView {
    /// A failure of class `error_type` that carries `message` and no cause.
    pub open spec fn plain(message: Seq<char>, error_type: ErrorTypes) -> ErrorView {
        ErrorView { cause: None, message: Some(message), error_type }
    }

    /// A failure of class `error_type` that carries `message` and `cause`.
    pub open spec fn caused(cause: Seq<char>, message: Seq<char>, error_type: ErrorTypes)
        -> ErrorView {
        ErrorView { cause: Some(cause), message: Some(message), error_type }
    }
}

impl Error {
    pub fn new(cause: Option<String>, message: Option<String>, error_type: ErrorTypes) -> (e:
        Self)
        ensures
            e.cause == cause,
            e.message == message,
            e.error_type == error_type,
    {
        Error { cause, message, error_type }
    }

    /// A failure with a message and no cause.
    pub fn plain(message: &str, error_type: ErrorTypes) -> (e: Self)
        ensures
            e@ == ErrorView::plain(message@, error_type),
    {
        Error { cause: None, message: Some(message.to_owned()), error_type }
    }

    /// A failure with a message and the cause behind it.
    pub fn caused(cause: &str, message: &str, error_type: ErrorTypes) -> (e: Self)
        ensures
            e@ == ErrorView::caused(cause@, message@, error_type),
    {
        Error { cause: Some(cause.to_owned()), message: Some(message.to_owned()), error_type }
    }

    /// The transport status of this failure: 400 for a validation failure,
    /// 401 for a missing or unacceptable credential, 403 for a refused
    /// action, 500 for a database or token-signing failure.
    pub fn status_code(&self) -> (code: u16)
        ensures
            code == status_of(self.error_type),
    {
        match self.error_type {
            ErrorTypes::ValidationError => 400,
            ErrorTypes::DbError => 500,
            ErrorTypes::Auth(Auth::Authentication) => 401,
            ErrorTypes::Auth(Auth::Authorization) => 403,
            ErrorTypes::JwtError => 500,
        }
    }
}

} // verus!
