use blog_auth::codec::{DecodeError, RawClaims};
use blog_auth::config::TokenConfig;
use blog_auth::errors::ErrorTypes;
use blog_auth::schema::jwt::{Jwt, TokenClaims, TokenType};

const SUBJECT: &str = "11111111-1111-1111-1111-111111111111";

fn config(key: &str, exp: i64, maxage: i64) -> TokenConfig {
    TokenConfig { key: key.to_string(), exp, maxage }
}

fn jwt() -> Jwt {
    Jwt::new(&config("access-secret", 1, 2), &config("refresh-secret", 60, 120))
}

#[test]
fn settings_count_minutes_in_seconds() {
    let jwt = jwt();
    assert_eq!(jwt.access.key, b"access-secret".to_vec());
    assert_eq!(jwt.access.exp, 60);
    assert_eq!(jwt.access.maxage, 120);
    assert_eq!(jwt.refresh.key, b"refresh-secret".to_vec());
    assert_eq!(jwt.refresh.exp, 3600);
    assert_eq!(jwt.refresh.maxage, 7200);
}

#[test]
fn config_fits_unless_seconds_overflow() {
    assert!(config("k", 1, 1).fits());
    assert!(config("k", -5, 0).fits());
    assert!(config("k", i64::MAX / 60, i64::MIN / 60).fits());
    assert!(!config("k", i64::MAX / 60 + 1, 1).fits());
    assert!(!config("k", 1, i64::MIN / 60 - 1).fits());
}

#[test]
fn claims_expire_validity_after_issue() {
    let claims = TokenClaims::new(SUBJECT.to_string(), 1_700_000_000, 60);
    assert_eq!(claims.sub, SUBJECT);
    assert_eq!(claims.exp, 1_700_000_060);
    let early = TokenClaims::new(SUBJECT.to_string(), 100, -40);
    assert_eq!(early.exp, 60);
}

#[test]
fn expiry_is_none_where_it_cannot_be_written() {
    assert_eq!(TokenClaims::expiry(10, 60), Some(70));
    assert_eq!(TokenClaims::expiry(10, -10), Some(0));
    assert_eq!(TokenClaims::expiry(10, -11), None);
    assert_eq!(TokenClaims::expiry(u64::MAX, 0), Some(u64::MAX));
    assert_eq!(TokenClaims::expiry(u64::MAX, 1), None);
    assert_eq!(TokenClaims::expiry(u64::MAX - 5, 5), Some(u64::MAX));
}

#[test]
fn encode_then_decode_gives_the_claims_back() {
    let jwt = jwt();
    let claims = TokenClaims::new(SUBJECT.to_string(), 1_700_000_000, 60);
    let token = jwt.encode(&claims, TokenType::Access).unwrap();
    assert_eq!(token.split('.').count(), 3);
    assert_ne!(token, SUBJECT);
    assert_eq!(jwt.decode_claims(&token, TokenType::Access), Ok(claims.clone()));
    assert_eq!(jwt.decode(&token, TokenType::Access), Ok(claims.clone()));
    let refresh = jwt.encode(&claims, TokenType::Refresh).unwrap();
    assert_ne!(refresh, token);
    assert_eq!(jwt.decode_claims(&refresh, TokenType::Refresh), Ok(claims));
}

#[test]
fn round_trip_keeps_any_subject_and_expiry() {
    let jwt = jwt();
    for (sub, exp) in [
        ("", 0u64),
        ("plain", 1),
        ("with \"quotes\" and \\ and \n newline", 42),
        ("ünïcödé ✓", u64::MAX),
        ("a.b.c", 1_700_000_000),
    ] {
        let claims = TokenClaims { sub: sub.to_string(), exp };
        let token = jwt.encode(&claims, TokenType::Refresh).unwrap();
        assert_eq!(jwt.decode_claims(&token, TokenType::Refresh), Ok(claims));
    }
}

#[test]
fn encode_is_deterministic() {
    let jwt = jwt();
    let claims = TokenClaims { sub: SUBJECT.to_string(), exp: 1_700_000_060 };
    let first = jwt.encode(&claims, TokenType::Access).unwrap();
    let second = jwt.encode(&claims, TokenType::Access).unwrap();
    assert_eq!(first, second);
}

#[test]
fn token_has_the_known_wire_form() {
    let jwt = jwt();
    let claims = TokenClaims { sub: "u".to_string(), exp: 5 };
    let token = jwt.encode(&claims, TokenType::Access).unwrap();
    let parts: Vec<&str> = token.split('.').collect();
    assert_eq!(parts[0], "eyJ0eXAiOiJKV1QiLCJhbGciOiJIUzI1NiJ9");
    assert_eq!(parts[1], "eyJzdWIiOiJ1IiwiZXhwIjo1fQ");
}

#[test]
fn decode_does_not_consult_the_clock() {
    let jwt = jwt();
    let long_ago = TokenClaims { sub: SUBJECT.to_string(), exp: 1 };
    let token = jwt.encode(&long_ago, TokenType::Access).unwrap();
    assert_eq!(jwt.decode_claims(&token, TokenType::Access), Ok(long_ago));
}

#[test]
fn decode_with_the_wrong_secret_is_a_signature_failure() {
    let jwt = jwt();
    let claims = TokenClaims::new("someone".to_string(), 10, 60);
    let token = jwt.encode(&claims, TokenType::Access).unwrap();
    assert_eq!(jwt.decode_claims(&token, TokenType::Refresh), Err(DecodeError::SignatureInvalid));
    let other = Jwt::new(&config("another-secret", 1, 2), &config("refresh-secret", 60, 120));
    assert_eq!(other.decode_claims(&token, TokenType::Access), Err(DecodeError::SignatureInvalid));
    let e = other.decode(&token, TokenType::Access).unwrap_err();
    assert_eq!(e.error_type, ErrorTypes::JwtError);
    assert_eq!(e.message.as_deref(), Some("Can not decode token"));
    assert_eq!(e.cause.as_deref(), Some("invalid signature"));
    assert_eq!(e.status_code(), 500);
}

#[test]
fn tampered_payload_is_a_signature_failure() {
    let jwt = jwt();
    let claims = TokenClaims { sub: "u".to_string(), exp: 5 };
    let token = jwt.encode(&claims, TokenType::Access).unwrap();
    let forged = token.replace("eyJzdWIiOiJ1IiwiZXhwIjo1fQ", "eyJzdWIiOiJ2IiwiZXhwIjo1fQ");
    assert_ne!(forged, token);
    assert_eq!(jwt.decode_claims(&forged, TokenType::Access), Err(DecodeError::SignatureInvalid));
}

#[test]
fn text_that_is_no_token_is_malformed() {
    let jwt = jwt();
    for text in ["", "not a token", "a.b", "a.b.c.d", "..", SUBJECT] {
        assert_eq!(jwt.decode_claims(text, TokenType::Access), Err(DecodeError::Malformed));
    }
    let e = jwt.decode("a.b", TokenType::Refresh).unwrap_err();
    assert_eq!(e.error_type, ErrorTypes::JwtError);
    assert_eq!(e.message.as_deref(), Some("Can not decode token"));
    assert_eq!(e.cause.as_deref(), Some("malformed token"));
}

#[test]
fn decode_error_words() {
    assert_eq!(DecodeError::Malformed.describe(), "malformed token");
    assert_eq!(DecodeError::SignatureInvalid.describe(), "invalid signature");
}

#[test]
fn payload_without_both_claims_is_malformed() {
    let whole = RawClaims { sub: Some("u".to_string()), exp: Some(7) };
    assert_eq!(
        TokenClaims::from_opened(Ok(whole)),
        Ok(TokenClaims { sub: "u".to_string(), exp: 7 })
    );
    let no_sub = RawClaims { sub: None, exp: Some(7) };
    assert_eq!(TokenClaims::from_opened(Ok(no_sub)), Err(DecodeError::Malformed));
    let no_exp = RawClaims { sub: Some("u".to_string()), exp: None };
    assert_eq!(TokenClaims::from_opened(Ok(no_exp)), Err(DecodeError::Malformed));
    assert_eq!(
        TokenClaims::from_opened(Err(DecodeError::SignatureInvalid)),
        Err(DecodeError::SignatureInvalid)
    );
    assert_eq!(TokenClaims::from_opened(Err(DecodeError::Malformed)), Err(DecodeError::Malformed));
}

#[test]
fn signed_payload_that_lacks_the_subject_is_malformed() {
    // header {"typ":"JWT","alg":"HS256"}, payload {"exp":5}, signed with "access-secret"
    let token = jsonwebtoken::encode(
        &jsonwebtoken::Header::default(),
        &std::collections::BTreeMap::from([("exp", 5u64)]),
        &jsonwebtoken::EncodingKey::from_secret(b"access-secret"),
    )
    .unwrap();
    assert_eq!(jwt().decode_claims(&token, TokenType::Access), Err(DecodeError::Malformed));
}

#[test]
fn tokens_of_other_makers_decode_alike() {
    let token = jsonwebtoken::encode(
        &jsonwebtoken::Header::default(),
        &std::collections::BTreeMap::from([
            ("sub", serde_json::Value::from(SUBJECT)),
            ("exp", serde_json::Value::from(99u64)),
        ]),
        &jsonwebtoken::EncodingKey::from_secret(b"refresh-secret"),
    )
    .unwrap();
    assert_eq!(
        jwt().decode_claims(&token, TokenType::Refresh),
        Ok(TokenClaims { sub: SUBJECT.to_string(), exp: 99 })
    );
}

#[test]
fn secrets_that_differ_in_trailing_zero_bytes_are_one_key() {
    let short = Jwt::new(&config("secret", 1, 2), &config("refresh-secret", 60, 120));
    let padded = Jwt::new(&config("secret\0", 1, 2), &config("refresh-secret", 60, 120));
    assert_ne!(short.access.key, padded.access.key);
    let claims = TokenClaims { sub: SUBJECT.to_string(), exp: 7 };
    let token = short.encode(&claims, TokenType::Access).unwrap();
    assert_eq!(padded.encode(&claims, TokenType::Access).unwrap(), token);
    assert_eq!(padded.decode_claims(&token, TokenType::Access), Ok(claims));
}
