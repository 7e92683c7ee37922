//! The signed-token codec: the two calls into `jsonwebtoken`, and the names
//! under which contracts speak of what those calls return.
//!
//! Nothing here is proved. What is claimed of the outside crate is stated in
//! the doc comment of each item.

use vstd::prelude::*;
use crate::errors::text_of;

verus! {

/// Why a token string could not be opened.
#[derive(Debug, Clone, Copy, PartialEq, Eq, Structural)]
pub enum DecodeError {
    /// The string is not a signed token with a readable payload.
    Malformed,
    /// The signature does not belong to the token under this secret.
    SignatureInvalid,
}

/// The payload of an opened token: each claim as far as the payload holds
/// it with the right type (`sub` a string, `exp` an unsigned integer).
#[derive(Debug, Clone, PartialEq, Eq)]
pub struct RawClaims {
    pub sub: Option<String>,
    pub exp: Option<u64>,
}

/// What opening a token gives: the two claims, or the reason for failure.
pub type Opened = Result<(Option<Seq<char>>, Option<u64>), DecodeError>;

/// The token that `jsonwebtoken::encode` makes of the claims `sub` and
/// `exp` under `secret` with the default (HS256) header.
pub uninterp spec fn signed_token(sub: Seq<char>, exp: u64, secret: Seq<u8>) -> Seq<char>;

/// What `jsonwebtoken::decode` makes of `token` under `secret`, with HS256
/// as the only algorithm and no check of the expiry against a clock.
pub uninterp spec fn opened_token(token: Seq<char>, secret: Seq<u8>) -> Opened;

/// The mathematical content of what [`open`] returns.
pub open spec fn opened_view(r: Result<RawClaims, DecodeError>) -> Opened {
    match r {
        Ok(raw) => Ok((text_of(raw.sub), raw.exp)),
        Err(e) => Err(e),
    }
}

/// Calls `jsonwebtoken::encode` with the default header, on a JSON object
/// with the members `sub` and `exp` in this order, and an HMAC key made of
/// `secret`.
///
/// Trusted: a token is made, whatever the arguments; it is a function of
/// the arguments alone; and it opens again under the same secret, with the
/// same two claims. (With an HMAC key and an HS256 header the crate has
/// nothing to refuse: it writes header and claims as JSON, which cannot fail
/// for a string and an integer, and signs with HMAC-SHA256, which cannot
/// fail either. It verifies by signing again and comparing.)
#[verifier::external_body]
pub(crate) fn sign(sub: &str, exp: u64, secret: &[u8]) -> (r: Option<String>)
    ensures
        text_of(r) == Some(signed_token(sub@, exp, secret@)),
        r matches Some(t) ==> opened_token(t@, secret@) == Opened::Ok((Some(sub@), Some(exp))),
{
    let mut claims = serde_json::Map::new();
    claims.insert("sub".to_owned(), serde_json::Value::from(sub));
    claims.insert("exp".to_owned(), serde_json::Value::from(exp));
    let key = jsonwebtoken::EncodingKey::from_secret(secret);
    jsonwebtoken::encode(&jsonwebtoken::Header::default(), &claims, &key).ok()
}

/// Calls `jsonwebtoken::decode` with an HMAC key made of `secret` and the
/// validation rules for HS256, with the check of `exp` against the clock
/// switched off: whether a token has expired is for the caller to say.
///
/// Trusted: the result is a function of the arguments alone. The crate's
/// error `InvalidSignature` becomes [`DecodeError::SignatureInvalid`], every
/// other one [`DecodeError::Malformed`].
#[verifier::external_body]
pub(crate) fn open(token: &str, secret: &[u8]) -> (r: Result<RawClaims, DecodeError>)
    ensures
        opened_view(r) == opened_token(token@, secret@),
{
    let mut rules = jsonwebtoken::Validation::new(jsonwebtoken::Algorithm::HS256);
    rules.validate_exp = false;
    let key = jsonwebtoken::DecodingKey::from_secret(secret);
    match jsonwebtoken::decode::<serde_json::Value>(token, &key, &rules) {
        Ok(data) => Ok(RawClaims {
            sub: data.claims.get("sub").and_then(serde_json::Value::as_str).map(str::to_owned),
            exp: data.claims.get("exp").and_then(serde_json::Value::as_u64),
        }),
        Err(e) => match e.kind() {
            jsonwebtoken::errors::ErrorKind::InvalidSignature => Err(DecodeError::SignatureInvalid),
            _ => Err(DecodeError::Malformed),
        },
    }
}

impl DecodeError {
    /// The words that stand for this failure in a diagnostic log.
    pub open spec fn text(self) -> Seq<char> {
        match self {
            DecodeError::Malformed => "malformed token"@,
            DecodeError::SignatureInvalid => "invalid signature"@,
        }
    }

    /// The words that stand for this failure in a diagnostic log.
    pub fn describe(&self) -> (s: &'static str)
        ensures
            s@ == self.text(),
    {
        match self {
            DecodeError::Malformed => "malformed token",
            DecodeError::SignatureInvalid => "invalid signature",
        }
    }
}

} // verus!
