use events_finder::server_error::decimal_text;
use events_finder::{health_reply, ServerError};

#[test]
fn invalid_credentials_is_answered_verbatim() {
    let e = ServerError::invalid_user_credentials();
    assert_eq!(e.status_code(), 401);
    let body = e.error_body();
    assert_eq!(body.message, "Invalid user credentials");
    assert_eq!(body.error_code, 1000);
    assert!(e.origin.is_none());
}

#[test]
fn user_exists_is_answered_verbatim() {
    let e = ServerError::user_already_exists();
    assert_eq!(e.status_code(), 409);
    let body = e.error_body();
    assert_eq!(body.message, "User already exists");
    assert_eq!(body.error_code, 1001);
}

#[test]
fn internal_errors_hide_their_cause() {
    let errors = vec![
        ServerError::fail_to_communicate_with_keycloak("connection refused"),
        ServerError::unable_to_parse_response("missing field"),
        ServerError::unable_to_decode_token("Invalid signature"),
    ];
    let codes = vec![1u32, 2, 3];
    for (e, code) in errors.iter().zip(codes) {
        assert_eq!(e.status_code(), 500);
        assert_eq!(e.status_code, 500);
        assert_eq!(e.error_code, code);
        let body = e.error_body();
        assert_eq!(body.message, "Internal server error");
        assert_eq!(body.error_code, 0);
    }
    assert_eq!(errors[0].message, "Fail to communicate with keycloak");
    assert_eq!(errors[1].message, "Unable to parse response");
    assert_eq!(errors[2].message, "Unable to decode token");
    assert_eq!(errors[0].origin.as_deref(), Some("connection refused"));
}

#[test]
fn unexpected_status_records_the_code() {
    let e = ServerError::unexpected_status(503);
    assert_eq!(e.origin.as_deref(), Some("Status code: 503"));
    assert_eq!(e.error_code, 1);
    assert_eq!(e.status_code(), 500);
    assert_eq!(e.error_body().message, "Internal server error");
}

#[test]
fn decimal_text_of_edges() {
    assert_eq!(decimal_text(0), "0");
    assert_eq!(decimal_text(7), "7");
    assert_eq!(decimal_text(10), "10");
    assert_eq!(decimal_text(409), "409");
    assert_eq!(decimal_text(65535), "65535");
}

#[test]
fn health_answers_ok() {
    let r = health_reply();
    assert_eq!(r.status, 200);
    assert_eq!(r.body, "OK");
}
