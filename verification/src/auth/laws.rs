//! Laws of the session protocol, stated over the same functions as the
//! contracts of the guard, the refresh flow and the issuing of tokens.

use vstd::prelude::*;
use crate::auth::handlers::{is_token_for, issue_access_spec, refresh_auth_spec};
use crate::auth::middleware::{Answer, attached, expired, guard, unauthenticated};
use crate::errors::{Auth, ErrorTypes, status_of};
use crate::ident::{parsed_id, rendered_id};
use crate::request::{RequestView, is_refresh_route};
use crate::schema::jwt::{ClaimsView, DecodeResult, Jwt, TokenType, encoded};

verus! {

/// An access token whose expiry lies in the past passes the guard on the
/// refresh route, and is refused as expired on every other route. (Its
/// subject must read as an identifier: one that does not is refused on
/// every route.)
pub proof fn lemma_expired_token_passes_on_refresh_route_only(
    jwt: Jwt,
    token: Seq<char>,
    claims: ClaimsView,
    user_id: u128,
    refresh: RequestView,
    other: RequestView,
    now: u64,
)
    requires
        jwt.decode_spec(token, TokenType::Access) == DecodeResult::Ok(claims),
        parsed_id(claims.sub) == Some(user_id),
        expired(claims.exp, now),
        refresh.access_token == Some(token),
        other.access_token == Some(token),
        is_refresh_route(refresh.uri),
        !is_refresh_route(other.uri),
    ensures
        guard(jwt, refresh, now) == Answer::Ok(user_id),
        guard(jwt, other, now) == Answer::Err(unauthenticated("session expired"@)),
{
}

/// After a login at the instant `login`, once the access token has outlived
/// its validity and while the refresh token has not: on every route but the
/// refresh route the guard refuses the access token as expired; on the
/// refresh route the guard lets it through, the refresh flow accepts the
/// refresh token for the same user, and an access token is issued that
/// signs claims for that user which expire a full access validity after
/// `now` (as long as that instant can be written down).
pub proof fn lemma_lapsed_access_token_is_renewed(
    jwt: Jwt,
    user_id: u128,
    login: u64,
    now: u64,
    access_token: Seq<char>,
    refresh_token: Seq<char>,
    req: RequestView,
)
    requires
        jwt.well_configured(),
        is_token_for(jwt, user_id, TokenType::Access, login, access_token),
        is_token_for(jwt, user_id, TokenType::Refresh, login, refresh_token),
        login + jwt.access.exp < now <= login + jwt.refresh.exp,
        req.access_token == Some(access_token),
        req.refresh_token == Some(refresh_token),
    ensures
        !is_refresh_route(req.uri) ==> guard(jwt, req, now) == Answer::Err(
            unauthenticated("session expired"@),
        ),
        is_refresh_route(req.uri) ==> {
            let passed = attached(req, guard(jwt, req, now));
            &&& guard(jwt, req, now) == Answer::Ok(user_id)
            &&& jwt.refresh_spec(passed, now) == Answer::Ok(user_id)
            &&& refresh_auth_spec(jwt, passed, now) == issue_access_spec(jwt, user_id, now)
            &&& 0 <= now + jwt.access.exp <= u64::MAX ==> (refresh_auth_spec(jwt, passed, now)
                matches Ok(renewal) && renewal.new_access == encoded(
                ClaimsView { sub: rendered_id(user_id), exp: (now + jwt.access.exp) as u64 },
                jwt.secret(TokenType::Access),
            ))
        },
{
}

/// Logout revokes nothing. The guard's answer is fixed by the request and
/// the clock: a request that the guard has accepted is accepted again, for
/// the same user, at every instant at which its token has not expired,
/// whatever was answered in between.
pub proof fn lemma_logout_does_not_revoke(
    jwt: Jwt,
    token: Seq<char>,
    claims: ClaimsView,
    user_id: u128,
    req: RequestView,
    before: u64,
    after: u64,
)
    requires
        jwt.decode_spec(token, TokenType::Access) == DecodeResult::Ok(claims),
        req.access_token == Some(token),
        guard(jwt, req, before) == Answer::Ok(user_id),
        !expired(claims.exp, after),
    ensures
        guard(jwt, req, after) == Answer::Ok(user_id),
{
}

/// A token that is signed as it should be, but whose subject is no
/// identifier, is refused as unauthenticated: as expired where it has
/// expired and the route is not the refresh route, else for its subject.
pub proof fn lemma_corrupt_subject_is_unauthenticated(
    jwt: Jwt,
    token: Seq<char>,
    claims: ClaimsView,
    req: RequestView,
    now: u64,
)
    requires
        jwt.decode_spec(token, TokenType::Access) == DecodeResult::Ok(claims),
        parsed_id(claims.sub) is None,
        req.access_token == Some(token),
    ensures
        guard(jwt, req, now) == Answer::Err(
            if expired(claims.exp, now) && !is_refresh_route(req.uri) {
                unauthenticated("session expired"@)
            } else {
                unauthenticated("corrupt subject"@)
            },
        ),
{
}

/// Whatever the guard refuses, it refuses as unauthenticated: the client
/// always sees the status 401, and never learns from the status why.
pub proof fn lemma_guard_refuses_as_unauthenticated(jwt: Jwt, req: RequestView, now: u64)
    ensures
        guard(jwt, req, now) matches Err(e) ==> {
            &&& e.error_type == ErrorTypes::Auth(Auth::Authentication)
            &&& status_of(e.error_type) == 401
        },
{
}

} // verus!
