//! The refresh flow: a refresh token that still holds is exchanged for the
//! right to a new access token. The refresh token itself is never reissued.
//!
//! The identity is not read from the refresh token. It is the one that the
//! guard attached to the request when it accepted the access token, so that a
//! refresh token can never speak for another user than the access token
//! beside it.

use vstd::prelude::*;
use crate::auth::middleware::{Presented, expired, presented, presented_view};
use crate::clock;
use crate::codec::DecodeError;
use crate::errors::{Auth, Error, ErrorTypes, ErrorView};
use crate::request::{RequestContext, RequestView};
use crate::schema::jwt::{Jwt, TokenClaims, TokenType};

verus! {

/// The rejection for a caller that is known but may not be served.
pub open spec fn unauthorized(message: Seq<char>) -> ErrorView {
    ErrorView::plain(message, ErrorTypes::Auth(Auth::Authorization))
}

/// The failure for a refresh token that cannot be decoded. Unlike at the
/// guard this is a token failure of its own class: it is rare, and it means
/// that the token was tampered with.
pub open spec fn refresh_undecodable(e: DecodeError) -> ErrorView {
    ErrorView::caused(e.text(), "Invalid refresh jwt tokens"@, ErrorTypes::JwtError)
}

/// The answer of the refresh flow, step by step: no token, an unreadable
/// token, an expired token, no identity attached to the request; else the
/// identity.
pub open spec fn refresh_verdict(token: Presented, identity: Option<u128>, now: u64) -> Result<
    u128,
    ErrorView,
> {
    match token {
        None => Err(unauthorized("no refresh token"@)),
        Some(Err(e)) => Err(refresh_undecodable(e)),
        Some(Ok(claims)) => if expired(claims.exp, now) {
            Err(unauthorized("refresh expired"@))
        } else {
            match identity {
                None => Err(
                    ErrorView::plain(
                        "Can not find user's id"@,
                        ErrorTypes::Auth(Auth::Authentication),
                    ),
                ),
                Some(id) => Ok(id),
            }
        },
    }
}

/// The mathematical content of the refresh flow's answer.
pub open spec fn identity_view(r: Result<u128, Error>) -> Result<u128, ErrorView> {
    match r {
        Ok(id) => Ok(id),
        Err(e) => Err(e@),
    }
}

impl Jwt {
    /// The answer of the refresh flow to a request at the instant `now`.
    pub open spec fn refresh_spec(&self, req: RequestView, now: u64) -> Result<u128, ErrorView> {
        refresh_verdict(presented(*self, req.refresh_token, TokenType::Refresh), req.user_id, now)
    }

    /// The decision of the refresh flow on a refresh token that has been
    /// decoded and the identity that the guard attached.
    pub fn renew(
        token: Option<Result<TokenClaims, DecodeError>>,
        identity: Option<u128>,
        now: u64,
    ) -> (r: Result<u128, Error>)
        ensures
            identity_view(r) == refresh_verdict(presented_view(token), identity, now),
    {
        let claims = match token {
            None => {
                return Err(
                    Error::plain("no refresh token", ErrorTypes::Auth(Auth::Authorization)),
                );
            },
            Some(Err(e)) => {
                return Err(
                    Error::caused(e.describe(), "Invalid refresh jwt tokens", ErrorTypes::JwtError),
                );
            },
            Some(Ok(claims)) => claims,
        };
        if now > claims.exp {
            return Err(Error::plain("refresh expired", ErrorTypes::Auth(Auth::Authorization)));
        }
        match identity {
            None => Err(
                Error::plain("Can not find user's id", ErrorTypes::Auth(Auth::Authentication)),
            ),
            Some(id) => Ok(id),
        }
    }

    /// Runs the refresh flow on `req` at the instant `now`: the identity for
    /// which a new access token may be issued, or the reason why none may.
    pub fn refresh_at(&self, req: &RequestContext, now: u64) -> (r: Result<u128, Error>)
        ensures
            identity_view(r) == self.refresh_spec(req@, now),
    {
        let token = match &req.refresh_token {
            None => None,
            Some(cookie) => Some(self.decode_claims(cookie.as_str(), TokenType::Refresh)),
        };
        Self::renew(token, req.user_id, now)
    }

    /// Runs the refresh flow on `req` at the current instant. The answer is
    /// the one that [`Jwt::refresh_at`] gives at some instant.
    pub fn refresh(&self, req: &RequestContext) -> (r: Result<u128, Error>)
        ensures
            exists|now: u64| identity_view(r) == #[trigger] self.refresh_spec(req@, now),
    {
        let now = clock::now();
        self.refresh_at(req, now)
    }
}

} // verus!
