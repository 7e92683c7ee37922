use blog_auth::auth::handlers::{issue_at, logout_handler, refresh_auth_at};
use blog_auth::auth::middleware::JwtMiddleware;
use blog_auth::codec::DecodeError;
use blog_auth::config::TokenConfig;
use blog_auth::errors::{Auth, Error, ErrorTypes};
use blog_auth::request::{RequestContext, REFRESH_ROUTE};
use blog_auth::schema::jwt::{Jwt, TokenClaims, TokenType};

const USER: u128 = 0x1111_1111_1111_1111_1111_1111_1111_1111;
const SUBJECT: &str = "11111111-1111-1111-1111-111111111111";
const LOGIN: u64 = 1_700_000_000;

fn state() -> Jwt {
    Jwt::new(
        &TokenConfig { key: "access-secret".to_string(), exp: 1, maxage: 2 },
        &TokenConfig { key: "refresh-secret".to_string(), exp: 60, maxage: 120 },
    )
}

fn request(uri: &str, access: Option<&str>, refresh: Option<&str>) -> RequestContext {
    RequestContext::new(uri.to_string(), access.map(str::to_string), refresh.map(str::to_string))
}

fn unauthenticated(message: &str) -> Error {
    Error::plain(message, ErrorTypes::Auth(Auth::Authentication))
}

fn claims(exp: u64) -> TokenClaims {
    TokenClaims { sub: SUBJECT.to_string(), exp }
}

#[test]
fn a_new_request_carries_no_identity() {
    let req = request("/posts", Some("a"), None);
    assert_eq!(req.uri, "/posts");
    assert_eq!(req.access_token.as_deref(), Some("a"));
    assert_eq!(req.refresh_token, None);
    assert_eq!(req.user_id, None);
}

#[test]
fn only_the_refresh_route_is_the_refresh_route() {
    assert_eq!(REFRESH_ROUTE, "/auth/refresh");
    assert!(request("/auth/refresh", None, None).on_refresh_route());
    assert!(!request("/auth/refresh/", None, None).on_refresh_route());
    assert!(!request("/auth/refresh?x=1", None, None).on_refresh_route());
    assert!(!request("/posts", None, None).on_refresh_route());
    assert!(!request("", None, None).on_refresh_route());
}

#[test]
fn decide_without_a_token() {
    assert_eq!(JwtMiddleware::decide(None, Some(USER), false, 0), Err(unauthenticated("no access token")));
    assert_eq!(JwtMiddleware::decide(None, None, true, 0), Err(unauthenticated("no access token")));
}

#[test]
fn decide_on_a_token_that_does_not_decode() {
    let e = JwtMiddleware::decide(Some(Err(DecodeError::SignatureInvalid)), None, false, 0);
    assert_eq!(
        e,
        Err(Error::caused(
            "invalid signature",
            "invalid access token",
            ErrorTypes::Auth(Auth::Authentication)
        ))
    );
    let e = JwtMiddleware::decide(Some(Err(DecodeError::Malformed)), Some(USER), true, 0);
    assert_eq!(
        e,
        Err(Error::caused(
            "malformed token",
            "invalid access token",
            ErrorTypes::Auth(Auth::Authentication)
        ))
    );
}

#[test]
fn decide_at_and_after_the_instant_of_expiry() {
    let ok = Ok(JwtMiddleware { user_id: USER });
    assert_eq!(JwtMiddleware::decide(Some(Ok(claims(100))), Some(USER), false, 99), ok);
    assert_eq!(JwtMiddleware::decide(Some(Ok(claims(100))), Some(USER), false, 100), ok);
    assert_eq!(
        JwtMiddleware::decide(Some(Ok(claims(100))), Some(USER), false, 101),
        Err(unauthenticated("session expired"))
    );
    assert_eq!(JwtMiddleware::decide(Some(Ok(claims(100))), Some(USER), true, 101), ok);
    assert_eq!(JwtMiddleware::decide(Some(Ok(claims(100))), Some(USER), true, u64::MAX), ok);
}

#[test]
fn decide_on_a_subject_that_is_no_identifier() {
    assert_eq!(
        JwtMiddleware::decide(Some(Ok(claims(100))), None, false, 50),
        Err(unauthenticated("corrupt subject"))
    );
    assert_eq!(
        JwtMiddleware::decide(Some(Ok(claims(100))), None, true, 500),
        Err(unauthenticated("corrupt subject"))
    );
    assert_eq!(
        JwtMiddleware::decide(Some(Ok(claims(100))), None, false, 500),
        Err(unauthenticated("session expired"))
    );
}

#[test]
fn guard_accepts_a_fresh_session_and_attaches_the_identity() {
    let jwt = state();
    let session = issue_at(&jwt, USER, LOGIN).unwrap();
    let mut req = request("/posts", Some(&session.access_token), Some(&session.refresh_token));
    let answer = JwtMiddleware::from_request_at(&mut req, &jwt, LOGIN + 30);
    assert_eq!(answer, Ok(JwtMiddleware { user_id: USER }));
    assert_eq!(req.user_id, Some(USER));
    assert_eq!(req.uri, "/posts");
    assert_eq!(req.access_token.as_deref(), Some(session.access_token.as_str()));
    assert_eq!(req.refresh_token.as_deref(), Some(session.refresh_token.as_str()));
}

#[test]
fn guard_reads_every_text_form_of_an_identifier() {
    let jwt = state();
    for sub in [
        "11111111-1111-1111-1111-111111111111",
        "11111111111111111111111111111111",
        "{11111111-1111-1111-1111-111111111111}",
        "urn:uuid:11111111-1111-1111-1111-111111111111",
    ] {
        let token =
            jwt.encode(&TokenClaims { sub: sub.to_string(), exp: 100 }, TokenType::Access).unwrap();
        let mut req = request("/posts", Some(&token), None);
        assert_eq!(
            JwtMiddleware::from_request_at(&mut req, &jwt, 1),
            Ok(JwtMiddleware { user_id: USER })
        );
    }
    let token = jwt
        .encode(
            &TokenClaims { sub: "00000000-0000-0000-0000-0000000000ff".to_string(), exp: 100 },
            TokenType::Access,
        )
        .unwrap();
    let mut req = request("/posts", Some(&token), None);
    assert_eq!(JwtMiddleware::from_request_at(&mut req, &jwt, 1), Ok(JwtMiddleware { user_id: 255 }));
}

#[test]
fn guard_refuses_a_request_without_the_cookie() {
    let jwt = state();
    let session = issue_at(&jwt, USER, LOGIN).unwrap();
    let mut req = request("/posts", None, Some(&session.refresh_token));
    let before = req.clone();
    let e = JwtMiddleware::from_request_at(&mut req, &jwt, LOGIN).unwrap_err();
    assert_eq!(e, unauthenticated("no access token"));
    assert_eq!(e.status_code(), 401);
    assert_eq!(req, before);
}

#[test]
fn guard_refuses_a_token_of_the_other_kind() {
    let jwt = state();
    let session = issue_at(&jwt, USER, LOGIN).unwrap();
    let mut req = request("/posts", Some(&session.refresh_token), None);
    let e = JwtMiddleware::from_request_at(&mut req, &jwt, LOGIN).unwrap_err();
    assert_eq!(e.error_type, ErrorTypes::Auth(Auth::Authentication));
    assert_eq!(e.message.as_deref(), Some("invalid access token"));
    assert_eq!(e.cause.as_deref(), Some("invalid signature"));
    assert_eq!(e.status_code(), 401);
    assert_eq!(req.user_id, None);
}

#[test]
fn guard_refuses_text_that_is_no_token() {
    let jwt = state();
    let mut req = request("/auth/refresh", Some("garbage"), None);
    let e = JwtMiddleware::from_request_at(&mut req, &jwt, LOGIN).unwrap_err();
    assert_eq!(
        e,
        Error::caused("malformed token", "invalid access token", ErrorTypes::Auth(Auth::Authentication))
    );
    assert_eq!(req.user_id, None);
}

#[test]
fn expired_token_passes_on_the_refresh_route_only() {
    let jwt = state();
    let token = jwt.encode(&claims(LOGIN), TokenType::Access).unwrap();
    for route in ["/posts", "/posts/update", "/auth/logout", "/", "/auth/refresh/more"] {
        let mut req = request(route, Some(&token), None);
        let e = JwtMiddleware::from_request_at(&mut req, &jwt, LOGIN + 1).unwrap_err();
        assert_eq!(e, unauthenticated("session expired"));
        assert_eq!(req.user_id, None);
    }
    let mut req = request("/auth/refresh", Some(&token), None);
    assert_eq!(
        JwtMiddleware::from_request_at(&mut req, &jwt, LOGIN + 1),
        Ok(JwtMiddleware { user_id: USER })
    );
    assert_eq!(req.user_id, Some(USER));
}

#[test]
fn malformed_subject_in_a_signed_token_is_unauthenticated() {
    let jwt = state();
    let token = jwt
        .encode(&TokenClaims { sub: "not-an-identifier".to_string(), exp: LOGIN + 60 }, TokenType::Access)
        .unwrap();
    let mut req = request("/posts", Some(&token), None);
    let e = JwtMiddleware::from_request_at(&mut req, &jwt, LOGIN).unwrap_err();
    assert_eq!(e, unauthenticated("corrupt subject"));
    assert_eq!(e.status_code(), 401);
    assert_eq!(req.user_id, None);
    let mut req = request("/auth/refresh", Some(&token), None);
    let e = JwtMiddleware::from_request_at(&mut req, &jwt, LOGIN + 1000).unwrap_err();
    assert_eq!(e, unauthenticated("corrupt subject"));
}

#[test]
fn logout_does_not_revoke() {
    let jwt = state();
    let session = issue_at(&jwt, USER, LOGIN).unwrap();
    let cleared = logout_handler();
    assert_eq!(cleared.access_token, "");
    assert_eq!(cleared.refresh_token, "");
    let mut req = request("/posts", Some(&session.access_token), Some(&session.refresh_token));
    assert_eq!(
        JwtMiddleware::from_request_at(&mut req, &jwt, LOGIN + 1),
        Ok(JwtMiddleware { user_id: USER })
    );
    let mut req = request("/posts", Some(&session.access_token), None);
    assert_eq!(
        JwtMiddleware::from_request_at(&mut req, &jwt, LOGIN + 60),
        Ok(JwtMiddleware { user_id: USER })
    );
    let mut req = request("/posts", Some(&session.access_token), None);
    assert_eq!(
        JwtMiddleware::from_request_at(&mut req, &jwt, LOGIN + 61),
        Err(unauthenticated("session expired"))
    );
    let mut req = request("/posts", Some(&cleared.access_token), None);
    assert!(JwtMiddleware::from_request_at(&mut req, &jwt, LOGIN + 1).is_err());
}

#[test]
fn access_lapses_after_sixty_seconds_and_refresh_renews_it() {
    let jwt = state();
    assert_eq!(jwt.access.exp, 60);
    assert_eq!(jwt.refresh.exp, 3600);
    let session = issue_at(&jwt, USER, LOGIN).unwrap();
    assert_eq!(
        jwt.decode_claims(&session.access_token, TokenType::Access),
        Ok(TokenClaims { sub: SUBJECT.to_string(), exp: LOGIN + 60 })
    );
    let now = LOGIN + 61;

    let mut protected = request("/posts", Some(&session.access_token), Some(&session.refresh_token));
    let refused = JwtMiddleware::from_request_at(&mut protected, &jwt, now).unwrap_err();
    assert_eq!(refused.status_code(), 401);
    assert_eq!(refused, unauthenticated("session expired"));

    let mut refresh =
        request("/auth/refresh", Some(&session.access_token), Some(&session.refresh_token));
    assert_eq!(
        JwtMiddleware::from_request_at(&mut refresh, &jwt, now),
        Ok(JwtMiddleware { user_id: USER })
    );
    let renewal = refresh_auth_at(&refresh, &jwt, now).unwrap();
    assert_ne!(renewal.new_access, session.access_token);
    assert_eq!(
        jwt.decode_claims(&renewal.new_access, TokenType::Access),
        Ok(TokenClaims { sub: SUBJECT.to_string(), exp: now + 60 })
    );
    assert_eq!(renewal.cookie.name, "access_token");
    assert_eq!(renewal.cookie.max_age, 120);

    let mut again = request("/posts", Some(&renewal.new_access), Some(&session.refresh_token));
    assert_eq!(
        JwtMiddleware::from_request_at(&mut again, &jwt, now),
        Ok(JwtMiddleware { user_id: USER })
    );
}

#[test]
fn guard_at_the_current_instant() {
    let jwt = state();
    let live = jwt.encode(&claims(u64::MAX), TokenType::Access).unwrap();
    let mut req = request("/posts", Some(&live), None);
    assert_eq!(JwtMiddleware::from_request(&mut req, &jwt), Ok(JwtMiddleware { user_id: USER }));
    assert_eq!(req.user_id, Some(USER));
    let dead = jwt.encode(&claims(1), TokenType::Access).unwrap();
    let mut req = request("/posts", Some(&dead), None);
    assert_eq!(JwtMiddleware::from_request(&mut req, &jwt), Err(unauthenticated("session expired")));
    let mut req = request("/auth/refresh", Some(&dead), None);
    assert_eq!(JwtMiddleware::from_request(&mut req, &jwt), Ok(JwtMiddleware { user_id: USER }));
}

#[test]
fn odd_subjects_are_refused_without_a_crash() {
    let jwt = state();
    let long = "1".repeat(200);
    for sub in [
        "",
        "-",
        "--------",
        "----",
        "{}",
        "{é}",
        "{",
        "urn:uuid:",
        "urn:uuid:é",
        "URN:UUID:11111111-1111-1111-1111-11111111111",
        "11111111-1111-1111-1111-11111111111",
        "11111111-1111-1111-1111-1111111111111",
        "1111111-11111-1111-1111-111111111111",
        "11111111-1111-1111-1111_111111111111",
        "é1111111-1111-1111-1111-111111111111",
        "1111111111111111111111111111111g",
        "111111111111111111111111111111\u{7ff}",
        " 11111111-1111-1111-1111-111111111111",
        "11111111-1111-1111-1111-111111111111\n",
        long.as_str(),
    ] {
        let token =
            jwt.encode(&TokenClaims { sub: sub.to_string(), exp: 100 }, TokenType::Access).unwrap();
        let mut req = request("/posts", Some(&token), None);
        let e = JwtMiddleware::from_request_at(&mut req, &jwt, 1).unwrap_err();
        assert_eq!(e, unauthenticated("corrupt subject"));
        assert_eq!(req.user_id, None);
    }
}
