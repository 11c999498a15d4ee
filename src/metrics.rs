//! Request metrics: the labels recorded per request, and where the metrics
//! endpoint is served.

use vstd::prelude::*;
use crate::config::{decimal, push_decimal};
use crate::message::{Request, Response};
use crate::trace::{header_or, header_or_default};

verus! {

/// Where the metrics endpoint is served.
#[derive(Clone, Debug)]
pub struct Metrics {
    pub path: String,
}

impl Metrics {
    /// The endpoint at `/metrics`.
    pub fn new() -> (r: Metrics)
        ensures
            r.path@ == "/metrics"@,
    {
        Metrics { path: "/metrics".to_owned() }
    }

    /// The endpoint at `path`.
    pub fn path(self, path: &str) -> (r: Metrics)
        ensures
            r.path@ == path@,
    {
        Metrics { path: path.to_owned() }
    }
}

impl Default for Metrics {
    fn default() -> (r: Metrics)
        ensures
            r.path@ == "/metrics"@,
    {
        Metrics::new()
    }
}

/// The labels of one HTTP request: method, route, status in decimal.
#[derive(Clone, Debug)]
pub struct RequestLabels {
    pub method: String,
    pub path: String,
    pub status: String,
}

/// The labels of an HTTP request; `route` is the matched route when known,
/// else the request path.
pub fn http_labels(req: &Request, route: Option<&str>, resp: &Response) -> (r: RequestLabels)
    ensures
        r.method@ == req.method@,
        route is Some ==> r.path@ == route->Some_0@,
        route is None ==> r.path@ == req.path@,
        r.status@ == decimal(resp.status as nat),
{
    let path = match route {
        Some(p) => p.to_owned(),
        None => req.path.clone(),
    };
    let mut status = String::new();
    push_decimal(&mut status, resp.status as u64);
    RequestLabels { method: req.method.clone(), path, status }
}

/// Metrics layer for RPC services.
#[derive(Clone, Copy, Debug, Default)]
pub struct MetricsLayer;

/// A service wrapped by [`MetricsLayer`].
#[derive(Clone, Debug)]
pub struct MetricsService<S> {
    pub inner: S,
}

impl MetricsLayer {
    pub fn new() -> (r: MetricsLayer) {
        MetricsLayer
    }

    pub fn layer<S>(&self, inner: S) -> (r: MetricsService<S>)
        ensures
            r.inner == inner,
    {
        MetricsService { inner }
    }
}

impl<S> MetricsService<S> {
    /// The status label: the response's `grpc-status` (`0` when absent), or
    /// `error` when the inner service failed.
    pub fn status_label(&self, resp: Option<&Response>) -> (r: String)
        ensures
            resp is None ==> r@ == "error"@,
            resp is Some ==> r@ == header_or(resp->Some_0.headers.deep_view(), "grpc-status"@, "0"@),
    {
        match resp {
            Some(r) => header_or_default(&r.headers, "grpc-status", "0"),
            None => "error".to_owned(),
        }
    }
}

} // verus!
