//! What the guard and the refresh flow read from an incoming request, and
//! the one thing they attach to it.

use vstd::prelude::*;
use crate::errors::text_of;

verus! {

/// The route on which an expired access token is let through.
pub const REFRESH_ROUTE: &'static str = "/auth/refresh";

/// One request, for as long as it is being handled. The identity is attached
/// by the guard and lives no longer than the request.
#[derive(Debug, Clone, PartialEq, Eq)]
pub struct RequestContext {
    /// The address that was asked for.
    pub uri: String,
    /// The value of the cookie `access_token`, if the request has one.
    pub access_token: Option<String>,
    /// The value of the cookie `refresh_token`, if the request has one.
    pub refresh_token: Option<String>,
    /// The caller's identity, once the guard has accepted the request.
    pub user_id: Option<u128>,
}

/// The mathematical content of a [`RequestContext`].
pub struct RequestView {
    pub uri: Seq<char>,
    pub access_token: Option<Seq<char>>,
    pub refresh_token: Option<Seq<char>>,
    pub user_id: Option<u128>,
}

/// Whether an address is that of the refresh route.
pub open spec fn is_refresh_route(uri: Seq<char>) -> bool {
    uri == REFRESH_ROUTE@
}

impl View for RequestContext {
    type V = RequestView;

    open spec fn view(&self) -> RequestView {
        RequestView {
            uri: self.uri@,
            access_token: text_of(self.access_token),
            refresh_token: text_of(self.refresh_token),
            user_id: self.user_id,
        }
    }
}

impl RequestView {
    /// This request with `id` attached as the caller's identity.
    pub open spec fn with_identity(self, id: u128) -> RequestView {
        RequestView { user_id: Some(id), ..self }
    }
}

impl RequestContext {
    /// A request as it arrives: nothing is attached to it yet.
    pub fn new(uri: String, access_token: Option<String>, refresh_token: Option<String>) -> (req:
        Self)
        ensures
            req.uri == uri,
            req.access_token == access_token,
            req.refresh_token == refresh_token,
            req.user_id is None,
    {
        RequestContext { uri, access_token, refresh_token, user_id: None }
    }

    /// Whether this request asks for the refresh route.
    pub fn on_refresh_route(&self) -> (b: bool)
        ensures
            b == is_refresh_route(self.uri@),
    {
        let route = REFRESH_ROUTE.to_owned();
        self.uri == route
    }
}

} // verus!
