//! Tracing: the fields of a request's span and of its completion record.
//! The layers never change the request or the response.

use vstd::prelude::*;
use crate::config::{decimal, push_decimal};
use crate::message::{find_header, get_header, HeaderSeq, Request, Response};

verus! {

/// The fields that tag every log line of one request.
#[derive(Clone, Debug)]
pub struct SpanFields {
    pub method: String,
    pub path: String,
    /// The request identifier, `-` when there is none yet.
    pub request_id: String,
}

/// A header value, or a default when absent.
pub open spec fn header_or(hs: HeaderSeq, n: Seq<char>, default: Seq<char>) -> Seq<char> {
    match find_header(hs, n) {
        Some(v) => v,
        None => default,
    }
}

/// The first value under `name`, or `default`.
pub fn header_or_default(headers: &Vec<(String, String)>, name: &str, default: &str) -> (r: String)
    ensures
        r@ == header_or(headers.deep_view(), name@, default@),
{
    match get_header(headers, name) {
        Some(v) => v,
        None => default.to_owned(),
    }
}

/// Makes the span of an HTTP request: method, path and request identifier.
#[derive(Clone, Copy, Debug, Default)]
pub struct RequestSpan;

impl RequestSpan {
    pub fn make_span(&self, req: &Request) -> (r: SpanFields)
        ensures
            r.method@ == req.method@,
            r.path@ == req.path@,
            r.request_id@ == header_or(req.headers.deep_view(), "x-request-id"@, "-"@),
    {
        SpanFields {
            method: req.method.clone(),
            path: req.path.clone(),
            request_id: header_or_default(&req.headers, "x-request-id", "-"),
        }
    }
}

/// Tracing layer for HTTP services: a [`RequestSpan`] per request, and the
/// status and latency in microseconds when it completes.
#[derive(Clone, Copy, Debug, Default)]
pub struct DefaultTraceLayer;

impl DefaultTraceLayer {
    pub fn new() -> (r: DefaultTraceLayer) {
        DefaultTraceLayer
    }

    pub fn span(&self, req: &Request) -> (r: SpanFields)
        ensures
            r.method@ == req.method@,
            r.path@ == req.path@,
            r.request_id@ == header_or(req.headers.deep_view(), "x-request-id"@, "-"@),
    {
        RequestSpan.make_span(req)
    }

    /// The status to log for a response, in decimal.
    pub fn status_field(&self, resp: &Response) -> (r: String)
        ensures
            r@ == decimal(resp.status as nat),
    {
        let mut s = String::new();
        push_decimal(&mut s, resp.status as u64);
        s
    }
}

/// Tracing layer for RPC services: a span with the RPC method (the request
/// path) and identifier, and one line with status and latency at the end.
#[derive(Clone, Copy, Debug, Default)]
pub struct TraceLayer;

/// A service wrapped by [`TraceLayer`].
#[derive(Clone, Debug)]
pub struct TraceService<S> {
    pub inner: S,
}

impl TraceLayer {
    pub fn new() -> (r: TraceLayer) {
        TraceLayer
    }

    pub fn layer<S>(&self, inner: S) -> (r: TraceService<S>)
        ensures
            r.inner == inner,
    {
        TraceService { inner }
    }
}

/// What the completion line reports.
#[derive(Clone, Debug)]
pub enum Completion {
    /// The inner service answered; its `grpc-status`, `0` when absent.
    Status(String),
    /// The inner service failed.
    Failed,
}

impl<S> TraceService<S> {
    /// The span of an RPC request: its path as method, and its identifier.
    pub fn span(&self, req: &Request) -> (r: SpanFields)
        ensures
            r.method@ == req.path@,
            r.path@ == req.path@,
            r.request_id@ == header_or(req.headers.deep_view(), "x-request-id"@, "-"@),
    {
        SpanFields {
            method: req.path.clone(),
            path: req.path.clone(),
            request_id: header_or_default(&req.headers, "x-request-id", "-"),
        }
    }

    /// What to report once the inner service resolved (`None` on failure).
    pub fn completion(&self, resp: Option<&Response>) -> (r: Completion)
        ensures
            resp is None ==> r is Failed,
            resp is Some ==> r is Status && r->Status_0@ == header_or(
                resp->Some_0.headers.deep_view(),
                "grpc-status"@,
                "0"@,
            ),
    {
        match resp {
            Some(r) => Completion::Status(header_or_default(&r.headers, "grpc-status", "0")),
            None => Completion::Failed,
        }
    }
}

} // verus!
