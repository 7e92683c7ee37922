//! Tokens: the claims they carry, the settings of each kind, and the codec
//! that turns claims into a signed string and back.
//!
//! Tokens are stateless. What a token string means is fixed by the string and
//! the secret alone; whether it has expired is for the caller to decide, with
//! a clock of its own.

use vstd::prelude::*;
use vstd::utf8::encode_utf8;
use crate::codec;
use crate::codec::{DecodeError, Opened, RawClaims, opened_token, opened_view, signed_token};
use crate::config::TokenConfig;
use crate::errors::{Error, ErrorTypes, ErrorView};

verus! {

/// The signed payload: who the token is for, and until when it holds.
#[derive(Debug, Clone, PartialEq, Eq)]
pub struct TokenClaims {
    /// The subject: a user identifier in text form.
    pub sub: String,
    /// The instant of expiry, in seconds since the epoch.
    pub exp: u64,
}

/// The mathematical content of [`TokenClaims`].
pub struct ClaimsView {
    pub sub: Seq<char>,
    pub exp: u64,
}

impl View for TokenClaims {
    type V = ClaimsView;

    open spec fn view(&self) -> ClaimsView {
        ClaimsView { sub: self.sub@, exp: self.exp }
    }
}

/// The instant at which a token issued at `now` for `validity` seconds
/// expires, where that instant can be written down.
pub open spec fn expiry_of(now: u64, validity: i64) -> Option<u64> {
    if 0 <= now + validity <= u64::MAX {
        Some((now + validity) as u64)
    } else {
        None
    }
}

/// The claims that an opened payload amounts to: both must be there.
pub open spec fn claims_of(opened: Opened) -> Result<ClaimsView, DecodeError> {
    match opened {
        Ok((Some(sub), Some(exp))) => Ok(ClaimsView { sub, exp }),
        Ok(_) => Err(DecodeError::Malformed),
        Err(e) => Err(e),
    }
}

/// What decoding gives: the claims, or the reason for failure.
pub type DecodeResult = Result<ClaimsView, DecodeError>;

/// What the token string `token` means under `secret`.
pub open spec fn decoded(token: Seq<char>, secret: Seq<u8>) -> Result<ClaimsView, DecodeError> {
    claims_of(opened_token(token, secret))
}

/// The token string for `claims` under `secret`.
pub open spec fn encoded(claims: ClaimsView, secret: Seq<u8>) -> Seq<char> {
    signed_token(claims.sub, claims.exp, secret)
}

/// The mathematical content of a decoding result.
pub open spec fn claims_view(r: Result<TokenClaims, DecodeError>) -> Result<
    ClaimsView,
    DecodeError,
> {
    match r {
        Ok(c) => Ok(c@),
        Err(e) => Err(e),
    }
}

/// The mathematical content of a result that holds claims or a failure.
pub open spec fn claims_or_error_view(r: Result<TokenClaims, Error>) -> Result<
    ClaimsView,
    ErrorView,
> {
    match r {
        Ok(c) => Ok(c@),
        Err(e) => Err(e@),
    }
}

impl TokenClaims {
    /// The instant at which a token issued at `now` for `validity` seconds
    /// expires, or `None` where no `u64` holds it.
    pub fn expiry(now: u64, validity: i64) -> (r: Option<u64>)
        ensures
            r == expiry_of(now, validity),
    {
        now.checked_add_signed(validity)
    }

    /// The claims of a token for `sub`, issued at `now` and valid for
    /// `validity` seconds: it expires at `now + validity`.
    pub fn new(sub: String, now: u64, validity: i64) -> (claims: Self)
        requires
            expiry_of(now, validity) is Some,
        ensures
            claims.sub == sub,
            Some(claims.exp) == expiry_of(now, validity),
    {
        TokenClaims { sub, exp: now.checked_add_signed(validity).unwrap() }
    }

    /// The claims that an opened payload amounts to. A payload that lacks
    /// the subject or the expiry is malformed.
    pub fn from_opened(opened: Result<RawClaims, DecodeError>) -> (r: Result<Self, DecodeError>)
        ensures
            claims_view(r) == claims_of(opened_view(opened)),
    {
        match opened {
            Err(e) => Err(e),
            Ok(raw) => match (raw.sub, raw.exp) {
                (Some(sub), Some(exp)) => Ok(TokenClaims { sub, exp }),
                _ => Err(DecodeError::Malformed),
            },
        }
    }
}

/// The two kinds of token.
#[derive(Debug, Clone, Copy, PartialEq, Eq, Structural)]
pub enum TokenType {
    Refresh,
    Access,
}

/// The settings of one kind of token: its secret, how long a token is valid
/// and how long its cookie lives, both in seconds.
#[derive(Debug, Clone, PartialEq, Eq)]
pub struct TokenSettings {
    /// The signing secret.
    pub key: Vec<u8>,
    /// How long a token is valid, in seconds.
    pub exp: i64,
    /// How long the cookie that carries it lives, in seconds.
    pub maxage: i64,
}

impl TokenSettings {
    /// The signing secret.
    pub open spec fn secret(&self) -> Seq<u8> {
        self.key@
    }

    /// The settings that a configuration entry stands for.
    pub open spec fn matches(&self, config: TokenConfig) -> bool {
        &&& self.secret() == encode_utf8(config.key@)
        &&& self.exp == 60 * config.exp
        &&& self.maxage == 60 * config.maxage
    }

    fn of(config: &TokenConfig) -> (s: Self)
        requires
            config.in_range(),
        ensures
            s.matches(*config),
    {
        TokenSettings {
            key: config.key.as_str().as_bytes_vec(),
            exp: 60 * config.exp,
            maxage: 60 * config.maxage,
        }
    }
}

/// The token configuration of the process: one [`TokenSettings`] per kind.
/// It is built once and only read afterwards.
#[derive(Debug, Clone, PartialEq, Eq)]
pub struct Jwt {
    pub access: TokenSettings,
    pub refresh: TokenSettings,
}

impl Jwt {
    /// The settings of one kind of token.
    pub open spec fn settings(&self, token_type: TokenType) -> TokenSettings {
        match token_type {
            TokenType::Access => self.access,
            TokenType::Refresh => self.refresh,
        }
    }

    /// The secret of one kind of token.
    pub open spec fn secret(&self, token_type: TokenType) -> Seq<u8> {
        self.settings(token_type).secret()
    }

    /// An access token is valid for a strictly shorter time than a refresh
    /// token. Nothing checks this when the process runs: it is for the
    /// operator to configure.
    pub open spec fn well_configured(&self) -> bool {
        self.access.exp < self.refresh.exp
    }

    /// The token that [`Jwt::encode`] returns.
    pub open spec fn encode_spec(&self, claims: ClaimsView, token_type: TokenType) -> Seq<char> {
        encoded(claims, self.secret(token_type))
    }

    /// What [`Jwt::decode_claims`] returns.
    pub open spec fn decode_spec(&self, token: Seq<char>, token_type: TokenType) -> Result<
        ClaimsView,
        DecodeError,
    > {
        decoded(token, self.secret(token_type))
    }

    /// The failure that [`Jwt::decode`] reports for a token that cannot be
    /// opened.
    pub open spec fn decode_failure(e: DecodeError) -> ErrorView {
        ErrorView::caused(e.text(), "Can not decode token"@, ErrorTypes::JwtError)
    }

    /// The token configuration that two configuration entries stand for,
    /// with minutes turned into seconds.
    pub fn new(access_config: &TokenConfig, refresh_config: &TokenConfig) -> (jwt: Self)
        requires
            access_config.in_range(),
            refresh_config.in_range(),
        ensures
            jwt.access.matches(*access_config),
            jwt.refresh.matches(*refresh_config),
    {
        Jwt { access: TokenSettings::of(access_config), refresh: TokenSettings::of(refresh_config) }
    }

    /// Signs `token` with the secret of its kind. Signing never fails, and
    /// gives the same token for the same claims. The token decodes, under
    /// the same kind, to the claims that went in.
    pub fn encode(&self, token: &TokenClaims, token_type: TokenType) -> (r: Result<String, Error>)
        ensures
            r matches Ok(s) && s@ == self.encode_spec(token@, token_type),
            r matches Ok(s) && self.decode_spec(s@, token_type) == DecodeResult::Ok(token@),
    {
        let signed = match token_type {
            TokenType::Access => codec::sign(
                token.sub.as_str(),
                token.exp,
                self.access.key.as_slice(),
            ),
            TokenType::Refresh => codec::sign(
                token.sub.as_str(),
                token.exp,
                self.refresh.key.as_slice(),
            ),
        };
        match signed {
            Some(s) => Ok(s),
            None => Err(Error::plain("Can not create token", ErrorTypes::JwtError)),
        }
    }

    /// Opens `claim` with the secret of its kind, and says why where it
    /// cannot: the string is malformed, or its signature does not match.
    /// No clock is consulted: an expired token decodes like any other.
    pub fn decode_claims(&self, claim: &str, token_type: TokenType) -> (r: Result<
        TokenClaims,
        DecodeError,
    >)
        ensures
            claims_view(r) == self.decode_spec(claim@, token_type),
    {
        let opened = match token_type {
            TokenType::Access => codec::open(claim, self.access.key.as_slice()),
            TokenType::Refresh => codec::open(claim, self.refresh.key.as_slice()),
        };
        TokenClaims::from_opened(opened)
    }

    /// Opens `claim` with the secret of its kind. A token that cannot be
    /// opened is a token failure, with the reason as its cause.
    pub fn decode(&self, claim: &str, token_type: TokenType) -> (r: Result<TokenClaims, Error>)
        ensures
            claims_or_error_view(r) == match self.decode_spec(claim@, token_type) {
                Ok(c) => Ok::<ClaimsView, ErrorView>(c),
                Err(e) => Err(Self::decode_failure(e)),
            },
    {
        match self.decode_claims(claim, token_type) {
            Ok(claims) => Ok(claims),
            Err(e) => Err(Error::caused(e.describe(), "Can not decode token", ErrorTypes::JwtError)),
        }
    }
}

} // verus!
