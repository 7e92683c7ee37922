//! What the session routes answer: the tokens of a new session at login, a
//! new access token at refresh, and cleared cookies at logout.
//!
//! Tokens travel in two cookies, `access_token` and `refresh_token`. How
//! long a cookie lives is configured apart from how long its token is valid.

use vstd::prelude::*;
use crate::clock;
use crate::errors::{Error, ErrorTypes, ErrorView};
use crate::ident;
use crate::ident::{parsed_id, rendered_id};
use crate::request::{RequestContext, RequestView};
use crate::schema::jwt::{ClaimsView, DecodeResult, Jwt, TokenClaims, TokenType, expiry_of};

verus! {

/// The name of the cookie that carries the access token.
pub const ACCESS_COOKIE: &'static str = "access_token";

/// The name of the cookie that carries the refresh token.
pub const REFRESH_COOKIE: &'static str = "refresh_token";

/// How a token's cookie is to be set, apart from its value.
#[derive(Debug, Clone, PartialEq, Eq)]
pub struct CookieMeta {
    pub name: String,
    pub path: String,
    /// Seconds for which the browser keeps the cookie; negative to drop it.
    pub max_age: i64,
    pub http_only: bool,
}

/// The mathematical content of a [`CookieMeta`].
pub struct CookieMetaView {
    pub name: Seq<char>,
    pub path: Seq<char>,
    pub max_age: i64,
    pub http_only: bool,
}

impl View for CookieMeta {
    type V = CookieMetaView;

    open spec fn view(&self) -> CookieMetaView {
        CookieMetaView {
            name: self.name@,
            path: self.path@,
            max_age: self.max_age,
            http_only: self.http_only,
        }
    }
}

/// The cookie of a token: for the whole site, hidden from scripts.
pub open spec fn token_cookie(name: Seq<char>, max_age: i64) -> CookieMetaView {
    CookieMetaView { name, path: "/"@, max_age, http_only: true }
}

impl CookieMeta {
    /// The cookie of a token: for the whole site, hidden from scripts.
    pub fn for_token(name: &str, max_age: i64) -> (meta: Self)
        ensures
            meta@ == token_cookie(name@, max_age),
    {
        CookieMeta { name: name.to_owned(), path: "/".to_owned(), max_age, http_only: true }
    }
}

/// Both tokens of a session, each with the cookie that is to carry it.
#[derive(Debug, Clone, PartialEq, Eq)]
pub struct Session {
    pub access_token: String,
    pub refresh_token: String,
    pub access_cookie: CookieMeta,
    pub refresh_cookie: CookieMeta,
}

/// The mathematical content of a [`Session`].
pub struct SessionView {
    pub access_token: Seq<char>,
    pub refresh_token: Seq<char>,
    pub access_cookie: CookieMetaView,
    pub refresh_cookie: CookieMetaView,
}

impl View for Session {
    type V = SessionView;

    open spec fn view(&self) -> SessionView {
        SessionView {
            access_token: self.access_token@,
            refresh_token: self.refresh_token@,
            access_cookie: self.access_cookie@,
            refresh_cookie: self.refresh_cookie@,
        }
    }
}

/// A new access token with the cookie that is to carry it.
#[derive(Debug, Clone, PartialEq, Eq)]
pub struct Renewal {
    pub new_access: String,
    pub cookie: CookieMeta,
}

/// The mathematical content of a [`Renewal`].
pub struct RenewalView {
    pub new_access: Seq<char>,
    pub cookie: CookieMetaView,
}

impl View for Renewal {
    type V = RenewalView;

    open spec fn view(&self) -> RenewalView {
        RenewalView { new_access: self.new_access@, cookie: self.cookie@ }
    }
}

/// The failure to make a token: its expiry lies beyond what can be written
/// down.
pub open spec fn not_created() -> ErrorView {
    ErrorView::plain("Can not create token"@, ErrorTypes::JwtError)
}

/// The token of one kind for the user `user_id`, issued at `now`: it
/// expires when the validity of its kind has passed. There is none where
/// that instant cannot be written down.
pub open spec fn token_spec(jwt: Jwt, user_id: u128, token_type: TokenType, now: u64) -> Result<
    Seq<char>,
    ErrorView,
> {
    match expiry_of(now, jwt.settings(token_type).exp) {
        Some(exp) => Ok(jwt.encode_spec(ClaimsView { sub: rendered_id(user_id), exp }, token_type)),
        None => Err(not_created()),
    }
}

/// The claims of a token of one kind for the user `user_id`, issued at
/// `now`, where its expiry can be written down.
pub open spec fn claims_spec(jwt: Jwt, user_id: u128, token_type: TokenType, now: u64) -> Option<
    ClaimsView,
> {
    match expiry_of(now, jwt.settings(token_type).exp) {
        Some(exp) => Some(ClaimsView { sub: rendered_id(user_id), exp }),
        None => None,
    }
}

/// Whether `token` is a token of one kind for the user `user_id`, issued at
/// `now`: it decodes to the claims of such a token, and its subject reads as
/// that user.
pub open spec fn is_token_for(
    jwt: Jwt,
    user_id: u128,
    token_type: TokenType,
    now: u64,
    token: Seq<char>,
) -> bool {
    &&& claims_spec(jwt, user_id, token_type, now) matches Some(claims)
    &&& jwt.decode_spec(token, token_type) == DecodeResult::Ok(claims)
    &&& parsed_id(claims.sub) == Some(user_id)
}

/// What [`issue_at`] returns.
pub open spec fn issue_spec(jwt: Jwt, user_id: u128, now: u64) -> Result<SessionView, ErrorView> {
    match token_spec(jwt, user_id, TokenType::Access, now) {
        Err(e) => Err(e),
        Ok(access_token) => match token_spec(jwt, user_id, TokenType::Refresh, now) {
            Err(e) => Err(e),
            Ok(refresh_token) => Ok(
                SessionView {
                    access_token,
                    refresh_token,
                    access_cookie: token_cookie(ACCESS_COOKIE@, jwt.access.maxage),
                    refresh_cookie: token_cookie(REFRESH_COOKIE@, jwt.refresh.maxage),
                },
            ),
        },
    }
}

/// What [`issue_access_at`] returns.
pub open spec fn issue_access_spec(jwt: Jwt, user_id: u128, now: u64) -> Result<
    RenewalView,
    ErrorView,
> {
    match token_spec(jwt, user_id, TokenType::Access, now) {
        Err(e) => Err(e),
        Ok(new_access) => Ok(
            RenewalView { new_access, cookie: token_cookie(ACCESS_COOKIE@, jwt.access.maxage) },
        ),
    }
}

/// What [`refresh_auth_at`] returns.
pub open spec fn refresh_auth_spec(jwt: Jwt, req: RequestView, now: u64) -> Result<
    RenewalView,
    ErrorView,
> {
    match jwt.refresh_spec(req, now) {
        Err(e) => Err(e),
        Ok(user_id) => issue_access_spec(jwt, user_id, now),
    }
}

/// What [`logout_handler`] returns: both cookies with an empty value and
/// a negative age, so that the browser drops them.
pub open spec fn cleared() -> SessionView {
    SessionView {
        access_token: Seq::empty(),
        refresh_token: Seq::empty(),
        access_cookie: token_cookie(ACCESS_COOKIE@, -1i64),
        refresh_cookie: token_cookie(REFRESH_COOKIE@, -1i64),
    }
}

/// The mathematical content of a result that holds a session.
pub open spec fn session_view(r: Result<Session, Error>) -> Result<SessionView, ErrorView> {
    match r {
        Ok(s) => Ok(s@),
        Err(e) => Err(e@),
    }
}

/// The mathematical content of a result that holds a new access token.
pub open spec fn renewal_view(r: Result<Renewal, Error>) -> Result<RenewalView, ErrorView> {
    match r {
        Ok(s) => Ok(s@),
        Err(e) => Err(e@),
    }
}

/// The mathematical content of a result that holds a token.
pub open spec fn token_view(r: Result<String, Error>) -> Result<Seq<char>, ErrorView> {
    match r {
        Ok(s) => Ok(s@),
        Err(e) => Err(e@),
    }
}

/// Makes the token of one kind for the user `user_id`, issued at `now`.
pub fn issue_token_at(state: &Jwt, user_id: u128, token_type: TokenType, now: u64) -> (r: Result<
    String,
    Error,
>)
    ensures
        token_view(r) == token_spec(*state, user_id, token_type, now),
        r matches Ok(token) ==> is_token_for(*state, user_id, token_type, now, token@),
{
    let validity = match token_type {
        TokenType::Access => state.access.exp,
        TokenType::Refresh => state.refresh.exp,
    };
    match TokenClaims::expiry(now, validity) {
        None => Err(Error::plain("Can not create token", ErrorTypes::JwtError)),
        Some(_) => {
            let claims = TokenClaims::new(ident::render_id(user_id), now, validity);
            state.encode(&claims, token_type)
        },
    }
}

/// Opens a session for the user `user_id` at the instant `now`: an access
/// token and a refresh token for that user, each valid for the time that is
/// configured for its kind, and the cookies that are to carry them.
pub fn issue_at(state: &Jwt, user_id: u128, now: u64) -> (r: Result<Session, Error>)
    ensures
        session_view(r) == issue_spec(*state, user_id, now),
        r matches Ok(s) ==> {
            &&& is_token_for(*state, user_id, TokenType::Access, now, s.access_token@)
            &&& is_token_for(*state, user_id, TokenType::Refresh, now, s.refresh_token@)
        },
{
    let access_token = match issue_token_at(state, user_id, TokenType::Access, now) {
        Ok(token) => token,
        Err(e) => {
            return Err(e);
        },
    };
    let refresh_token = match issue_token_at(state, user_id, TokenType::Refresh, now) {
        Ok(token) => token,
        Err(e) => {
            return Err(e);
        },
    };
    Ok(
        Session {
            access_token,
            refresh_token,
            access_cookie: CookieMeta::for_token(ACCESS_COOKIE, state.access.maxage),
            refresh_cookie: CookieMeta::for_token(REFRESH_COOKIE, state.refresh.maxage),
        },
    )
}

/// Opens a session for the user `user_id` at the current instant.
pub fn issue(state: &Jwt, user_id: u128) -> (r: Result<Session, Error>)
    ensures
        exists|now: u64| session_view(r) == #[trigger] issue_spec(*state, user_id, now),
{
    let now = clock::now();
    issue_at(state, user_id, now)
}

/// Makes one new access token for the user `user_id` at the instant `now`,
/// valid for the full time that is configured for access tokens.
pub fn issue_access_at(state: &Jwt, user_id: u128, now: u64) -> (r: Result<Renewal, Error>)
    ensures
        renewal_view(r) == issue_access_spec(*state, user_id, now),
        r matches Ok(n) ==> is_token_for(*state, user_id, TokenType::Access, now, n.new_access@),
{
    match issue_token_at(state, user_id, TokenType::Access, now) {
        Err(e) => Err(e),
        Ok(new_access) => Ok(
            Renewal { new_access, cookie: CookieMeta::for_token(ACCESS_COOKIE, state.access.maxage) },
        ),
    }
}

/// Answers the refresh route at the instant `now`: where the refresh flow
/// accepts the request, one new access token for the identity that the guard
/// attached. The refresh token is left as it is.
pub fn refresh_auth_at(req: &RequestContext, state: &Jwt, now: u64) -> (r: Result<Renewal, Error>)
    ensures
        renewal_view(r) == refresh_auth_spec(*state, req@, now),
        r matches Ok(n) ==> state.refresh_spec(req@, now) matches Ok(user_id) && is_token_for(
            *state,
            user_id,
            TokenType::Access,
            now,
            n.new_access@,
        ),
{
    match state.refresh_at(req, now) {
        Err(e) => Err(e),
        Ok(user_id) => issue_access_at(state, user_id, now),
    }
}

/// Answers the refresh route at the current instant.
pub fn refresh_auth(req: &RequestContext, state: &Jwt) -> (r: Result<Renewal, Error>)
    ensures
        exists|now: u64| renewal_view(r) == #[trigger] refresh_auth_spec(*state, req@, now),
{
    let now = clock::now();
    refresh_auth_at(req, state, now)
}

/// Answers the logout route: both cookies are cleared. The server keeps no
/// record of tokens, so there is nothing else to do, and a token that was
/// issued before stays valid until it expires.
pub fn logout_handler() -> (s: Session)
    ensures
        s@ == cleared(),
{
    Session {
        access_token: String::new(),
        refresh_token: String::new(),
        access_cookie: CookieMeta::for_token(ACCESS_COOKIE, -1),
        refresh_cookie: CookieMeta::for_token(REFRESH_COOKIE, -1),
    }
}

} // verus!
