use server_kit::auth::{AuthError, TokenValidator};
use server_kit::environment::Environment;
use server_kit::message::{Request, Response, Step};
use server_kit::pipeline::Pipeline;
use server_kit::ratelimit::TokenBucket;

#[derive(Clone, Debug)]
struct Only(&'static str);

impl TokenValidator for Only {
    fn validate(&self, token: &str) -> Result<(), AuthError> {
        if token == self.0 {
            Ok(())
        } else {
            Err(AuthError::InvalidToken("unknown".to_string()))
        }
    }
}

fn request(headers: &[(&str, &str)]) -> Request {
    Request {
        method: "GET".to_string(),
        path: "/api".to_string(),
        headers: headers.iter().map(|(n, v)| (n.to_string(), v.to_string())).collect(),
    }
}

fn header<'a>(hs: &'a [(String, String)], name: &str) -> Option<&'a str> {
    hs.iter().find(|(n, _)| n == name).map(|(_, v)| v.as_str())
}

fn handler(req: &Request) -> Response {
    Response { status: 200, headers: vec![], body: format!("hello {}", req.path).into_bytes() }
}

#[test]
fn accepted_request_reaches_handler() {
    let mut p = Pipeline::new(Environment::Development).with_auth(Only("good"));
    let entered = p.enter(request(&[("authorization", "Bearer good"), ("x-request-id", "r-1")]), 0);
    assert_eq!(entered.span.request_id, "r-1");
    let forwarded = match entered.step {
        Step::Forward(f) => f,
        Step::Respond(_) => panic!("accepted request was refused"),
    };
    assert_eq!(forwarded.headers, request(&[("authorization", "Bearer good"), ("x-request-id", "r-1")]).headers);
    let out = p.leave(&entered.request_id, handler(&forwarded));
    assert_eq!(out.status, 200);
    assert_eq!(out.body, b"hello /api".to_vec());
    assert_eq!(header(&out.headers, "x-request-id"), Some("r-1"));
}

#[test]
fn missing_credential_never_reaches_handler() {
    let mut p = Pipeline::new(Environment::Production).with_auth(Only("good"));
    let entered = p.enter(request(&[]), 0);
    assert_eq!(entered.span.request_id, "-");
    let resp = match entered.step {
        Step::Respond(r) => r,
        Step::Forward(_) => panic!("request without credential was forwarded"),
    };
    let out = p.leave(&entered.request_id, resp);
    assert_eq!(out.status, 401);
    assert_eq!(
        String::from_utf8(out.body).unwrap(),
        r#"{"code":"UNAUTHORIZED","message":"Missing authorization token"}"#
    );
    assert_eq!(header(&out.headers, "x-request-id").map(|s| s.len()), Some(36));
}

#[test]
fn rate_limit_refuses_after_capacity() {
    let mut p: Pipeline<Only> =
        Pipeline::new(Environment::Development).with_limiter(TokenBucket::new(2, 1_000_000_000, 0));
    let mut statuses = Vec::new();
    for _ in 0..3 {
        let entered = p.enter(request(&[]), 10);
        let resp = match entered.step {
            Step::Forward(f) => handler(&f),
            Step::Respond(r) => r,
        };
        statuses.push(p.leave(&entered.request_id, resp).status);
    }
    assert_eq!(statuses, vec![200, 200, 429]);
}

#[test]
fn handler_error_is_normalized_on_the_way_out() {
    let mut p: Pipeline<Only> = Pipeline::new(Environment::Development);
    let entered = p.enter(request(&[("x-request-id", "abc")]), 0);
    let resp = Response {
        status: 404,
        headers: vec![("x-request-id".to_string(), "handler-set".to_string())],
        body: b"missing".to_vec(),
    };
    let out = p.leave(&entered.request_id, resp);
    assert_eq!(out.status, 404);
    assert_eq!(header(&out.headers, "x-request-id"), Some("abc"));
    assert_eq!(header(&out.headers, "content-type"), Some("application/json"));
    assert_eq!(
        String::from_utf8(out.body.clone()).unwrap(),
        r#"{"code":"NOT_FOUND","message":"missing"}"#
    );
    let again = p.leave(&entered.request_id, out.clone());
    assert_eq!(again.status, out.status);
    assert_eq!(again.headers, out.headers);
    assert_eq!(again.body, out.body);
}
