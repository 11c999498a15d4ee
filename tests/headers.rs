use server_kit::headers::{self, HeaderKey, RequestExt};
use server_kit::message::Request;

fn request(headers: &[(&str, &str)]) -> Request {
    Request {
        method: "POST".to_string(),
        path: "/svc/Call".to_string(),
        headers: headers.iter().map(|(n, v)| (n.to_string(), v.to_string())).collect(),
    }
}

#[test]
fn header_request_id() {
    let request = request(&[(headers::REQUEST_ID, "test-id-123")]);
    assert_eq!(request.header(HeaderKey::new(headers::REQUEST_ID)), Some("test-id-123".to_string()));
}

#[test]
fn header_authorization() {
    let request = request(&[(headers::AUTHORIZATION, "Bearer token")]);
    assert_eq!(
        request.header(HeaderKey::new(headers::AUTHORIZATION)),
        Some("Bearer token".to_string())
    );
}

#[test]
fn header_custom_key() {
    let custom = HeaderKey::new("x-custom-header");
    let request = request(&[(custom.as_str(), "custom-value")]);
    assert_eq!(request.header(custom), Some("custom-value".to_string()));
}

#[test]
fn header_returns_none_when_missing() {
    let request = request(&[]);
    assert_eq!(request.header(HeaderKey::new(headers::REQUEST_ID)), None);
    assert_eq!(request.header(HeaderKey::new(headers::AUTHORIZATION)), None);
}

#[test]
fn header_key_equality() {
    let a = HeaderKey::new("x-test");
    let b = HeaderKey::new("x-test");
    let c = HeaderKey::new("x-other");

    assert_eq!(a, b);
    assert_ne!(a, c);
}

#[test]
fn header_first_value_wins() {
    let request = request(&[("x-a", "1"), ("x-b", "2"), ("x-a", "3")]);
    assert_eq!(request.header(HeaderKey::new("x-a")), Some("1".to_string()));
}
