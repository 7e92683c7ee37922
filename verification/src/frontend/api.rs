//! Requests to the service: where they go, and what an answer, or the lack
//! of one, amounts to.

use vstd::prelude::*;
use vstd::string::StringExecFns;
use crate::common::errors::{ErrorResponse, ErrorTypes};
use crate::errors::text_of;

verus! {

/// Where the service is reached unless configured otherwise.
pub const DEFAULT_API_ROOT: &'static str = "http://127.0.0.1:8000";

/// The one status that stands for success.
pub const STATUS_OK: u16 = 200;

/// What the body of an answer is to be read as.
#[derive(Debug, Clone, Copy, PartialEq, Eq, Structural)]
pub enum Reading {
    /// The value that was asked for.
    Value,
    /// The failure that the service reports.
    Failure,
}

/// The mathematical content of an [`ErrorResponse`].
pub struct ResponseView {
    pub cause: Option<Seq<char>>,
    pub message: Option<Seq<char>>,
    pub error_type: ErrorTypes,
}

/// The mathematical content of an [`ErrorResponse`].
pub open spec fn response_view(e: ErrorResponse) -> ResponseView {
    ResponseView { cause: text_of(e.cause), message: text_of(e.message), error_type: e.error_type }
}

/// The root of the service's address: the configured one, else the default.
pub fn api_root(configured: Option<String>) -> (root: String)
    ensures
        root@ == match configured {
            Some(r) => r@,
            None => DEFAULT_API_ROOT@,
        },
{
    match configured {
        Some(root) => root,
        None => DEFAULT_API_ROOT.to_owned(),
    }
}

/// The address of a route: the root, then the route.
pub fn address(root: &str, uri: &str) -> (url: String)
    ensures
        url@ == root@ + uri@,
{
    let mut url = root.to_owned();
    url.append(uri);
    url
}

/// What the body of an answer with the given status is to be read as.
pub fn reading(status: u16) -> (r: Reading)
    ensures
        r == if status == STATUS_OK {
            Reading::Value
        } else {
            Reading::Failure
        },
{
    if status == STATUS_OK {
        Reading::Value
    } else {
        Reading::Failure
    }
}

/// The failure of a request that could not be made.
pub fn not_sent(cause: &str) -> (e: ErrorResponse)
    ensures
        response_view(e) == (ResponseView {
            cause: Some(cause@),
            message: Some("Failed to make request"@),
            error_type: ErrorTypes::RequestError,
        }),
{
    ErrorResponse::new(
        Some(cause.to_owned()),
        Some("Failed to make request".to_owned()),
        ErrorTypes::RequestError,
    )
}

/// The failure of an answer whose body could not be read as the value that
/// was asked for.
pub fn unreadable(cause: &str) -> (e: ErrorResponse)
    ensures
        response_view(e) == (ResponseView {
            cause: Some(cause@),
            message: Some("Failed to deserialize response"@),
            error_type: ErrorTypes::DeserializeError,
        }),
{
    ErrorResponse::new(
        Some(cause.to_owned()),
        Some("Failed to deserialize response".to_owned()),
        ErrorTypes::DeserializeError,
    )
}

/// The failure that the service reported; where its body could not be read
/// either, a request failure of which nothing is known.
pub fn reported(failure: Option<ErrorResponse>) -> (e: ErrorResponse)
    ensures
        match failure {
            Some(f) => e == f,
            None => response_view(e) == (ResponseView {
                cause: None,
                message: None,
                error_type: ErrorTypes::RequestError,
            }),
        },
{
    match failure {
        Some(f) => f,
        None => ErrorResponse::new(None, None, ErrorTypes::RequestError),
    }
}

/// How an exchange with the service went.
#[derive(Debug, PartialEq, Eq)]
pub enum Exchange<T> {
    /// The request could not be made; the words say why.
    NotSent(String),
    /// The answer had the status of success. Its body read as a value, or
    /// did not; then the words say why.
    Value(Result<T, String>),
    /// The answer had another status. Its body read as a failure, or did
    /// not read at all.
    Failure(Option<ErrorResponse>),
}

/// What an exchange amounts to for the caller: the value, or the failure.
pub fn outcome<T>(exchange: Exchange<T>) -> (r: Result<T, ErrorResponse>)
    ensures
        match exchange {
            Exchange::NotSent(cause) => r matches Err(e) && response_view(e) == (ResponseView {
                cause: Some(cause@),
                message: Some("Failed to make request"@),
                error_type: ErrorTypes::RequestError,
            }),
            Exchange::Value(Ok(value)) => r == Ok::<T, ErrorResponse>(value),
            Exchange::Value(Err(cause)) => r matches Err(e) && response_view(e) == (ResponseView {
                cause: Some(cause@),
                message: Some("Failed to deserialize response"@),
                error_type: ErrorTypes::DeserializeError,
            }),
            Exchange::Failure(Some(failure)) => r == Err::<T, ErrorResponse>(failure),
            Exchange::Failure(None) => r matches Err(e) && response_view(e) == (ResponseView {
                cause: None,
                message: None,
                error_type: ErrorTypes::RequestError,
            }),
        },
{
    match exchange {
        Exchange::NotSent(cause) => Err(not_sent(cause.as_str())),
        Exchange::Value(Ok(value)) => Ok(value),
        Exchange::Value(Err(cause)) => Err(unreadable(cause.as_str())),
        Exchange::Failure(failure) => Err(reported(failure)),
    }
}

} // verus!
