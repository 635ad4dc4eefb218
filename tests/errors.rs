use srenity::error::status_text;
use srenity::{Body, Error, ErrorBody, ErrorKind, Failure};

fn readable(code: u16, message: &str) -> Failure {
    Failure::Response(
        code,
        ErrorBody::Message(Body {
            message: message.to_string(),
        }),
    )
}

fn kind_and_text(e: &Error) -> (ErrorKind, String) {
    match e {
        Error::BadRequest(b)
        | Error::Unauthorized(b)
        | Error::Forbidden(b)
        | Error::NotFound(b)
        | Error::InternalError(b) => (e.kind(), b.message.clone()),
        Error::Unknown(s) | Error::ClientError(s) | Error::ClientDecodeError(s) => (e.kind(), s.clone()),
    }
}

#[test]
fn status_400_is_bad_request() {
    let e = Error::classify(readable(400, "X"));
    assert!(matches!(&e, Error::BadRequest(b) if b.message == "X"));
}

#[test]
fn status_401_is_unauthorized() {
    let e = Error::classify(readable(401, "X"));
    assert!(matches!(&e, Error::Unauthorized(b) if b.message == "X"));
}

#[test]
fn status_403_is_forbidden() {
    let e = Error::classify(readable(403, "X"));
    assert!(matches!(&e, Error::Forbidden(b) if b.message == "X"));
}

#[test]
fn status_404_is_not_found() {
    let e = Error::classify(readable(404, "X"));
    assert!(matches!(&e, Error::NotFound(b) if b.message == "X"));
}

#[test]
fn status_500_is_internal_error() {
    let e = Error::classify(readable(500, "X"));
    assert!(matches!(&e, Error::InternalError(b) if b.message == "X"));
}

#[test]
fn other_status_with_message_is_unknown_with_code_and_message() {
    let e = Error::classify(readable(418, "X"));
    assert_eq!(kind_and_text(&e), (ErrorKind::Unknown, "418: X".to_string()));
    let e = Error::classify(readable(502, "bad gateway"));
    assert_eq!(kind_and_text(&e), (ErrorKind::Unknown, "502: bad gateway".to_string()));
}

#[test]
fn missing_body_is_unknown_naming_the_status() {
    let e = Error::classify(Failure::Response(404, ErrorBody::Missing));
    assert_eq!(kind_and_text(&e), (ErrorKind::Unknown, "No body for status: 404".to_string()));
    let e = Error::classify(Failure::Response(503, ErrorBody::Missing));
    assert_eq!(kind_and_text(&e), (ErrorKind::Unknown, "No body for status: 503".to_string()));
}

#[test]
fn unreadable_body_is_decode_error() {
    for code in [400u16, 401, 404, 500, 418] {
        let e = Error::classify(Failure::Response(code, ErrorBody::Unreadable));
        assert_eq!(
            kind_and_text(&e),
            (ErrorKind::ClientDecodeError, "Could not deserialize body".to_string())
        );
    }
}

#[test]
fn wrong_password_is_unauthorized() {
    let e = Error::classify(readable(401, "invalid credentials"));
    assert!(matches!(&e, Error::Unauthorized(b) if b.message == "invalid credentials"));
    assert_eq!(e.to_string(), "invalid credentials");
}

#[test]
fn failures_before_a_response_are_client_errors() {
    let e = Error::classify(Failure::Client("connection refused".to_string()));
    assert_eq!(kind_and_text(&e), (ErrorKind::ClientError, "connection refused".to_string()));
    let e = Error::classify(Failure::Decode("missing field `id`".to_string()));
    assert_eq!(kind_and_text(&e), (ErrorKind::ClientDecodeError, "missing field `id`".to_string()));
}

#[test]
fn status_codes_in_decimal() {
    assert_eq!(status_text(0), "0");
    assert_eq!(status_text(7), "7");
    assert_eq!(status_text(10), "10");
    assert_eq!(status_text(404), "404");
    assert_eq!(status_text(65535), "65535");
}

#[test]
fn error_texts() {
    assert_eq!(Error::classify(readable(404, "gone")).to_string(), "gone");
    assert_eq!(Error::Unknown("x".to_string()).to_string(), "Unknown: x");
    assert_eq!(Error::ClientError("x".to_string()).to_string(), "Client: x");
    assert_eq!(
        Error::ClientDecodeError("x".to_string()).to_string(),
        "Client decode error: x"
    );
    let b = Body {
        message: "m".to_string(),
    };
    assert_eq!(b.to_string(), "m");
}

#[test]
fn kinds_of_each_variant() {
    assert_eq!(Error::classify(readable(400, "")).kind(), ErrorKind::BadRequest);
    assert_eq!(Error::Unknown(String::new()).kind(), ErrorKind::Unknown);
    assert_eq!(Error::ClientError(String::new()).kind(), ErrorKind::ClientError);
    assert_eq!(
        Error::ClientDecodeError(String::new()).kind(),
        ErrorKind::ClientDecodeError
    );
}
