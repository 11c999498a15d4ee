use server_kit::message::{Request, Response};
use server_kit::metrics::{http_labels, Metrics, MetricsLayer};
use server_kit::trace::{Completion, DefaultTraceLayer, TraceLayer};

fn request(path: &str, headers: &[(&str, &str)]) -> Request {
    Request {
        method: "POST".to_string(),
        path: path.to_string(),
        headers: headers.iter().map(|(n, v)| (n.to_string(), v.to_string())).collect(),
    }
}

fn grpc_response(status: &str) -> Response {
    Response { status: 200, headers: vec![("grpc-status".to_string(), status.to_string())], body: b"ok".to_vec() }
}

#[test]
fn trace_layer_creates_service() {
    let _service = TraceLayer::new().layer(());
}

#[test]
fn trace_layer_is_clone() {
    fn assert_clone<T: Clone>() {}
    assert_clone::<TraceLayer>();
}

#[test]
fn trace_service_passes_through() {
    let service = TraceLayer::new().layer(());
    let req = request("/greeter.Greeter/SayHello", &[("x-request-id", "test-id-123")]);
    let span = service.span(&req);
    assert_eq!(span.method, "/greeter.Greeter/SayHello");
    assert_eq!(span.request_id, "test-id-123");
    assert!(matches!(service.completion(Some(&grpc_response("0"))), Completion::Status(s) if s == "0"));
}

#[test]
fn trace_service_handles_missing_request_id() {
    let service = TraceLayer::new().layer(());
    let span = service.span(&request("/greeter.Greeter/SayHello", &[]));
    assert_eq!(span.request_id, "-");
    let bare = Response { status: 200, headers: vec![], body: vec![] };
    assert!(matches!(service.completion(Some(&bare)), Completion::Status(s) if s == "0"));
}

#[test]
fn trace_service_handles_error_status() {
    let service = TraceLayer::new().layer(());
    assert!(matches!(service.completion(Some(&grpc_response("13"))), Completion::Status(s) if s == "13"));
    assert!(matches!(service.completion(None), Completion::Failed));
}

#[test]
fn http_span_fields() {
    let layer = DefaultTraceLayer::new();
    let span = layer.span(&request("/users", &[("x-request-id", "r9")]));
    assert_eq!(span.method, "POST");
    assert_eq!(span.path, "/users");
    assert_eq!(span.request_id, "r9");
    assert_eq!(layer.status_field(&Response { status: 503, headers: vec![], body: vec![] }), "503");
}

#[test]
fn metrics_layer_creates_service() {
    let service = MetricsLayer::new().layer(());
    assert_eq!(service.status_label(None), "error");
    assert_eq!(service.status_label(Some(&grpc_response("5"))), "5");
}

#[test]
fn metrics_path_and_labels() {
    assert_eq!(Metrics::new().path, "/metrics");
    assert_eq!(Metrics::new().path("/internal/metrics").path, "/internal/metrics");
    let req = request("/users/7", &[]);
    let resp = Response { status: 201, headers: vec![], body: vec![] };
    let l = http_labels(&req, Some("/users/:id"), &resp);
    assert_eq!((l.method.as_str(), l.path.as_str(), l.status.as_str()), ("POST", "/users/:id", "201"));
    let l = http_labels(&req, None, &resp);
    assert_eq!(l.path, "/users/7");
}
