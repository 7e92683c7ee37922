//! The guard: the check that every protected route runs, once per request,
//! before any handler.
//!
//! The guard reads the access token from the request, decodes it, compares
//! its expiry with the clock and parses its subject. It answers with the
//! caller's identity or with a typed rejection. An expired token is let
//! through on one route only: the refresh route, which exists to serve
//! callers whose access token has just expired.

use vstd::prelude::*;
use crate::clock;
use crate::codec::DecodeError;
use crate::errors::{Auth, Error, ErrorTypes, ErrorView};
use crate::ident;
use crate::ident::parsed_id;
use crate::request::{RequestContext, RequestView, is_refresh_route};
use crate::schema::jwt::{ClaimsView, Jwt, TokenClaims, TokenType};

verus! {

/// The caller's identity, as the guard has established it.
#[derive(Debug, Clone, Copy, PartialEq, Eq, Structural)]
pub struct JwtMiddleware {
    pub user_id: u128,
}

/// The guard's answer: the caller's identity, or the rejection.
pub type Answer = Result<u128, ErrorView>;

/// A token as it was presented: absent, unreadable, or decoded.
pub type Presented = Option<Result<ClaimsView, DecodeError>>;

/// Whether a token that expires at `exp` has expired at `now`. A token
/// still holds at the very instant of its expiry.
pub open spec fn expired(exp: u64, now: u64) -> bool {
    now > exp
}

/// The rejection for a credential that is missing or cannot be accepted.
pub open spec fn unauthenticated(message: Seq<char>) -> ErrorView {
    ErrorView::plain(message, ErrorTypes::Auth(Auth::Authentication))
}

/// The rejection for a token that cannot be decoded. The reason is kept as
/// the cause, for the log; the client learns only that it is not let in.
pub open spec fn undecodable(e: DecodeError) -> ErrorView {
    ErrorView::caused(
        e.text(),
        "invalid access token"@,
        ErrorTypes::Auth(Auth::Authentication),
    )
}

/// The token that a cookie value amounts to under the secret of its kind.
pub open spec fn presented(jwt: Jwt, cookie: Option<Seq<char>>, token_type: TokenType)
    -> Presented {
    match cookie {
        Some(token) => Some(jwt.decode_spec(token, token_type)),
        None => None,
    }
}

/// The identifier that the subject of a presented token reads as.
pub open spec fn subject_of(token: Presented) -> Option<u128> {
    match token {
        Some(Ok(claims)) => parsed_id(claims.sub),
        _ => None,
    }
}

/// The guard's answer, step by step: no token, an unreadable token, an
/// expired token on any route but the refresh route, a subject that is no
/// identifier; else the identity.
pub open spec fn verdict(token: Presented, subject: Option<u128>, refresh_route: bool, now: u64)
    -> Result<u128, ErrorView> {
    match token {
        None => Err(unauthenticated("no access token"@)),
        Some(Err(e)) => Err(undecodable(e)),
        Some(Ok(claims)) => if expired(claims.exp, now) && !refresh_route {
            Err(unauthenticated("session expired"@))
        } else {
            match subject {
                None => Err(unauthenticated("corrupt subject"@)),
                Some(id) => Ok(id),
            }
        },
    }
}

/// The guard's answer to a request at the instant `now`.
pub open spec fn guard(jwt: Jwt, req: RequestView, now: u64) -> Result<u128, ErrorView> {
    let token = presented(jwt, req.access_token, TokenType::Access);
    verdict(token, subject_of(token), is_refresh_route(req.uri), now)
}

/// The mathematical content of a presented token.
pub open spec fn presented_view(token: Option<Result<TokenClaims, DecodeError>>) -> Presented {
    match token {
        None => None,
        Some(Ok(claims)) => Some(Ok(claims@)),
        Some(Err(e)) => Some(Err(e)),
    }
}

/// The mathematical content of the guard's answer.
pub open spec fn answer_view(r: Result<JwtMiddleware, Error>) -> Result<u128, ErrorView> {
    match r {
        Ok(m) => Ok(m.user_id),
        Err(e) => Err(e@),
    }
}

/// The request as the guard leaves it: with the identity attached where the
/// guard accepted, untouched where it refused.
pub open spec fn attached(req: RequestView, answer: Result<u128, ErrorView>) -> RequestView {
    match answer {
        Ok(id) => req.with_identity(id),
        Err(_) => req,
    }
}

impl JwtMiddleware {
    /// The guard's decision on a token that has been decoded and a subject
    /// that has been parsed.
    pub fn decide(
        token: Option<Result<TokenClaims, DecodeError>>,
        subject: Option<u128>,
        refresh_route: bool,
        now: u64,
    ) -> (r: Result<Self, Error>)
        ensures
            answer_view(r) == verdict(presented_view(token), subject, refresh_route, now),
    {
        let claims = match token {
            None => {
                return Err(Error::plain("no access token", ErrorTypes::Auth(Auth::Authentication)));
            },
            Some(Err(e)) => {
                return Err(
                    Error::caused(
                        e.describe(),
                        "invalid access token",
                        ErrorTypes::Auth(Auth::Authentication),
                    ),
                );
            },
            Some(Ok(claims)) => claims,
        };
        if now > claims.exp && !refresh_route {
            return Err(Error::plain("session expired", ErrorTypes::Auth(Auth::Authentication)));
        }
        match subject {
            None => Err(Error::plain("corrupt subject", ErrorTypes::Auth(Auth::Authentication))),
            Some(user_id) => Ok(JwtMiddleware { user_id }),
        }
    }

    /// Runs the guard on `req` at the instant `now`, and attaches the
    /// identity to the request where the guard accepts. A request that is
    /// refused is left as it was.
    pub fn from_request_at(req: &mut RequestContext, jwt: &Jwt, now: u64) -> (r: Result<
        Self,
        Error,
    >)
        ensures
            answer_view(r) == guard(*jwt, old(req)@, now),
            final(req)@ == attached(old(req)@, answer_view(r)),
    {
        let token = match &req.access_token {
            None => None,
            Some(cookie) => Some(jwt.decode_claims(cookie.as_str(), TokenType::Access)),
        };
        let subject = match &token {
            Some(Ok(claims)) => ident::parse_id(claims.sub.as_str()),
            _ => None,
        };
        let refresh_route = req.on_refresh_route();
        let r = Self::decide(token, subject, refresh_route, now);
        match &r {
            Ok(m) => {
                req.user_id = Some(m.user_id);
            },
            Err(_) => {},
        }
        r
    }

    /// Runs the guard on `req` at the current instant. The answer is the one
    /// that [`JwtMiddleware::from_request_at`] gives at some instant.
    pub fn from_request(req: &mut RequestContext, jwt: &Jwt) -> (r: Result<Self, Error>)
        ensures
            exists|now: u64| answer_view(r) == #[trigger] guard(*jwt, old(req)@, now),
            final(req)@ == attached(old(req)@, answer_view(r)),
    {
        let now = clock::now();
        Self::from_request_at(req, jwt, now)
    }
}

} // verus!
