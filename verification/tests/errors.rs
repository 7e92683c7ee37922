use blog_auth::errors::{Auth, Error, ErrorTypes};

#[test]
fn new_keeps_its_arguments() {
    let e = Error::new(Some("why".to_string()), Some("what".to_string()), ErrorTypes::DbError);
    assert_eq!(e.cause.as_deref(), Some("why"));
    assert_eq!(e.message.as_deref(), Some("what"));
    assert_eq!(e.error_type, ErrorTypes::DbError);
    let bare = Error::new(None, None, ErrorTypes::JwtError);
    assert_eq!(bare.cause, None);
    assert_eq!(bare.message, None);
}

#[test]
fn plain_and_caused_failures() {
    let p = Error::plain("what", ErrorTypes::ValidationError);
    assert_eq!(p, Error::new(None, Some("what".to_string()), ErrorTypes::ValidationError));
    let c = Error::caused("why", "what", ErrorTypes::Auth(Auth::Authorization));
    assert_eq!(
        c,
        Error::new(
            Some("why".to_string()),
            Some("what".to_string()),
            ErrorTypes::Auth(Auth::Authorization)
        )
    );
}

#[test]
fn each_class_has_its_status() {
    let status = |t: ErrorTypes| Error::new(None, None, t).status_code();
    assert_eq!(status(ErrorTypes::ValidationError), 400);
    assert_eq!(status(ErrorTypes::DbError), 500);
    assert_eq!(status(ErrorTypes::Auth(Auth::Authentication)), 401);
    assert_eq!(status(ErrorTypes::Auth(Auth::Authorization)), 403);
    assert_eq!(status(ErrorTypes::JwtError), 500);
}
