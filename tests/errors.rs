use server_kit::error::{status_to_error_code, ErrorResponse, HttpError};

#[test]
fn status_to_error_code_common_codes() {
    assert_eq!(status_to_error_code(404), "NOT_FOUND");
    assert_eq!(status_to_error_code(400), "BAD_REQUEST");
    assert_eq!(status_to_error_code(500), "INTERNAL_SERVER_ERROR");
    assert_eq!(status_to_error_code(401), "UNAUTHORIZED");
    assert_eq!(status_to_error_code(403), "FORBIDDEN");
}

#[test]
fn status_without_reason_gives_error_code() {
    assert_eq!(status_to_error_code(599), "ERROR");
    assert_eq!(status_to_error_code(42), "ERROR");
    assert_eq!(status_to_error_code(429), "TOO_MANY_REQUESTS");
}

#[test]
fn error_response_new() {
    let resp = ErrorResponse::new("TEST_CODE", "Test message");
    assert_eq!(resp.code, "TEST_CODE");
    assert_eq!(resp.message, "Test message");
}

#[test]
fn error_response_from_status() {
    let resp = ErrorResponse::from_status(404, "Resource not found");
    assert_eq!(resp.code, "NOT_FOUND");
    assert_eq!(resp.message, "Resource not found");
}

#[test]
fn error_response_json_escapes() {
    let resp = ErrorResponse::new("X", "say \"hi\"\n");
    assert_eq!(
        String::from_utf8(resp.to_json()).unwrap(),
        r#"{"code":"X","message":"say \"hi\"\n"}"#
    );
    let resp = ErrorResponse::new("a\\b", "\u{1}\u{1f}\t\u{8}\u{c}\r é");
    assert_eq!(
        String::from_utf8(resp.to_json()).unwrap(),
        "{\"code\":\"a\\\\b\",\"message\":\"\\u0001\\u001f\\t\\b\\f\\r é\"}"
    );
}

#[derive(Debug)]
struct TestError {
    status: u16,
    msg: String,
}

impl HttpError for TestError {
    fn status_code(&self) -> u16 {
        self.status
    }

    fn message(&self) -> String {
        self.msg.clone()
    }
}

#[test]
fn http_error_error_code() {
    let err = TestError { status: 400, msg: "Invalid input".to_string() };
    assert_eq!(err.error_code(), "BAD_REQUEST");
}

#[test]
fn http_error_into_response() {
    let err = TestError { status: 404, msg: "Not found".to_string() };
    let response = err.into_http_response();
    assert_eq!(response.status, 404);
    assert_eq!(
        String::from_utf8(response.body).unwrap(),
        r#"{"code":"NOT_FOUND","message":"Not found"}"#
    );
}
