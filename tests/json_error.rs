use server_kit::environment::Environment;
use server_kit::json_error::{normalize_response, JsonErrorLayer};
use server_kit::message::Response;

fn response(status: u16, headers: &[(&str, &str)], body: &[u8]) -> Response {
    Response {
        status,
        headers: headers.iter().map(|(n, v)| (n.to_string(), v.to_string())).collect(),
        body: body.to_vec(),
    }
}

fn content_type(r: &Response) -> Option<&str> {
    r.headers.iter().find(|(n, _)| n == "content-type").map(|(_, v)| v.as_str())
}

#[test]
fn passes_through_success_responses() {
    let service = JsonErrorLayer::new(Environment::Development).layer(());
    let out = service.normalize(response(200, &[("content-type", "text/plain")], b"OK"));
    assert_eq!(out.status, 200);
    assert_eq!(out.body, b"OK".to_vec());
    assert_eq!(content_type(&out), Some("text/plain"));
}

#[test]
fn converts_error_to_json() {
    let service = JsonErrorLayer::new(Environment::Development).layer(());
    let out = service.normalize(response(404, &[], b""));
    assert_eq!(out.status, 404);
    assert_eq!(content_type(&out), Some("application/json"));
    assert_eq!(
        String::from_utf8(out.body).unwrap(),
        r#"{"code":"NOT_FOUND","message":"Not Found"}"#
    );
}

#[test]
fn preserves_existing_json_responses() {
    let service = JsonErrorLayer::new(Environment::Development).layer(());
    let out = service.normalize(response(
        400,
        &[("content-type", "application/json")],
        br#"{"custom":"error"}"#,
    ));
    assert_eq!(out.status, 400);
    assert_eq!(String::from_utf8(out.body).unwrap(), r#"{"custom":"error"}"#);
}

#[test]
fn plain_text_404_in_development_keeps_message() {
    let out = normalize_response(response(404, &[("content-type", "text/plain")], b"no such user"), false);
    assert_eq!(
        String::from_utf8(out.body.clone()).unwrap(),
        r#"{"code":"NOT_FOUND","message":"no such user"}"#
    );
    assert_eq!(content_type(&out), Some("application/json"));
}

#[test]
fn plain_text_404_in_production_is_redacted() {
    let service = JsonErrorLayer::new(Environment::Production).layer(());
    let out = service.normalize(response(404, &[("content-type", "text/plain")], b"no such user"));
    assert_eq!(
        String::from_utf8(out.body).unwrap(),
        r#"{"code":"NOT_FOUND","message":"Not Found"}"#
    );
}

#[test]
fn headers_other_than_content_type_are_kept() {
    let out = normalize_response(
        response(500, &[("x-trace", "t1"), ("content-type", "text/html")], b"boom"),
        false,
    );
    assert_eq!(out.status, 500);
    assert_eq!(
        out.headers,
        vec![
            ("x-trace".to_string(), "t1".to_string()),
            ("content-type".to_string(), "application/json".to_string()),
        ]
    );
    assert_eq!(
        String::from_utf8(out.body).unwrap(),
        r#"{"code":"INTERNAL_SERVER_ERROR","message":"boom"}"#
    );
}

#[test]
fn invalid_utf8_and_unknown_status() {
    let out = normalize_response(response(599, &[], &[0xff, b'a']), false);
    assert_eq!(
        String::from_utf8(out.body).unwrap(),
        "{\"code\":\"ERROR\",\"message\":\"\u{fffd}a\"}"
    );
    let out = normalize_response(response(599, &[], b""), false);
    assert_eq!(String::from_utf8(out.body).unwrap(), r#"{"code":"ERROR","message":"Error"}"#);
}

#[test]
fn normalization_is_a_fixed_point() {
    let once = normalize_response(response(502, &[("content-type", "text/plain")], b"upstream"), true);
    let twice = normalize_response(once.clone(), true);
    assert_eq!(once.status, twice.status);
    assert_eq!(once.headers, twice.headers);
    assert_eq!(once.body, twice.body);
}

#[test]
fn status_edges() {
    let out = normalize_response(response(200, &[], b"x"), false);
    assert_eq!(out.body, b"x".to_vec());
    let out = normalize_response(response(299, &[], b"x"), false);
    assert_eq!(out.body, b"x".to_vec());
    let out = normalize_response(response(400, &[("content-type", "application/json; charset=utf-8")], b"x"), false);
    assert_eq!(out.body, b"x".to_vec());
    let out = normalize_response(response(199, &[], b"x"), false);
    assert_eq!(String::from_utf8(out.body).unwrap(), r#"{"code":"ERROR","message":"x"}"#);
    let out = normalize_response(response(600, &[], b""), false);
    assert_eq!(String::from_utf8(out.body).unwrap(), r#"{"code":"ERROR","message":"Error"}"#);
}

#[test]
fn redirect_without_json_is_rewritten() {
    let out = normalize_response(response(301, &[("location", "/new"), ("content-type", "text/plain")], b"moved"), false);
    assert_eq!(out.status, 301);
    assert_eq!(
        out.headers,
        vec![
            ("location".to_string(), "/new".to_string()),
            ("content-type".to_string(), "application/json".to_string()),
        ]
    );
    assert_eq!(
        String::from_utf8(out.body).unwrap(),
        r#"{"code":"MOVED_PERMANENTLY","message":"moved"}"#
    );
}

#[test]
fn empty_body_in_development_uses_reason() {
    let out = normalize_response(response(503, &[], b""), false);
    assert_eq!(
        String::from_utf8(out.body).unwrap(),
        r#"{"code":"SERVICE_UNAVAILABLE","message":"Service Unavailable"}"#
    );
}
