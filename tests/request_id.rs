use server_kit::message::{Request, Response};
use server_kit::request_id::{
    propagate_request_id, with_request_id, RequestIdInterceptor, RequestIdLayer, REQUEST_ID_HEADER,
};

fn request(headers: &[(&str, &str)]) -> Request {
    Request {
        method: "GET".to_string(),
        path: "/test".to_string(),
        headers: headers.iter().map(|(n, v)| (n.to_string(), v.to_string())).collect(),
    }
}

fn id_of(headers: &[(String, String)]) -> Option<String> {
    headers.iter().find(|(n, _)| n == REQUEST_ID_HEADER).map(|(_, v)| v.clone())
}

fn is_uuid(s: &str) -> bool {
    s.len() == 36
        && s.char_indices().all(|(i, c)| {
            if i == 8 || i == 13 || i == 18 || i == 23 {
                c == '-'
            } else {
                c.is_ascii_digit() || ('a'..='f').contains(&c)
            }
        })
}

#[test]
fn interceptor_adds_header() {
    let result = RequestIdInterceptor::new().intercept(request(&[]));
    let id = id_of(&result.headers);
    assert!(id.is_some());
    assert!(is_uuid(&id.unwrap()));
}

#[test]
fn interceptor_preserves_existing() {
    let result = RequestIdInterceptor::new().intercept(request(&[(REQUEST_ID_HEADER, "existing-id")]));
    assert_eq!(id_of(&result.headers).unwrap(), "existing-id");
}

#[test]
fn interceptor_struct_works() {
    let interceptor = RequestIdInterceptor::new();
    let result = interceptor.intercept(request(&[]));
    assert!(id_of(&result.headers).is_some());
}

#[test]
fn layer_adds_request_id() {
    let service = RequestIdLayer::new().layer(());
    let (forwarded, id) = service.begin(request(&[]));
    assert!(is_uuid(&id), "Expected UUID, got: {}", id);
    assert_eq!(id_of(&forwarded.headers), Some(id.clone()));
    let resp = service.end(&id, Response { status: 200, headers: vec![], body: b"ok".to_vec() });
    assert_eq!(id_of(&resp.headers), Some(id));
}

#[test]
fn layer_preserves_existing_request_id() {
    let service = RequestIdLayer::new().layer(());
    let (forwarded, id) = service.begin(request(&[(REQUEST_ID_HEADER, "my-custom-id")]));
    assert_eq!(id, "my-custom-id");
    assert_eq!(id_of(&forwarded.headers).unwrap(), "my-custom-id");
    let resp = service.end(&id, Response { status: 200, headers: vec![], body: vec![] });
    assert_eq!(id_of(&resp.headers).unwrap(), "my-custom-id");
}

#[test]
fn layer_is_clone() {
    fn assert_clone<T: Clone>() {}
    assert_clone::<RequestIdLayer>();
}

#[test]
fn fresh_ids_differ() {
    let service = RequestIdLayer::new().layer(());
    let (_, a) = service.begin(request(&[]));
    let (_, b) = service.begin(request(&[]));
    assert_ne!(a, b);
}

#[test]
fn handler_value_is_overwritten() {
    let resp = Response {
        status: 200,
        headers: vec![
            ("x-request-id".to_string(), "handler".to_string()),
            ("x-other".to_string(), "1".to_string()),
            ("x-request-id".to_string(), "again".to_string()),
        ],
        body: vec![],
    };
    let out = propagate_request_id("abc", resp);
    assert_eq!(
        out.headers,
        vec![
            ("x-request-id".to_string(), "abc".to_string()),
            ("x-other".to_string(), "1".to_string()),
        ]
    );
}

#[test]
fn explicit_id_only_when_absent() {
    let out = with_request_id(request(&[]), "gen-1");
    assert_eq!(id_of(&out.headers).unwrap(), "gen-1");
    let out = with_request_id(request(&[(REQUEST_ID_HEADER, "keep")]), "gen-2");
    assert_eq!(id_of(&out.headers).unwrap(), "keep");
}
