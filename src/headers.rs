//! Well-known header names, and typed access to a request's headers.

use vstd::prelude::*;
use crate::message::{find_header, get_header, HeaderSeq, Request};

verus! {

pub const AUTHORIZATION: &'static str = "authorization";
pub const CONTENT_TYPE: &'static str = "content-type";
pub const USER_AGENT: &'static str = "user-agent";
pub const ACCEPT_LANGUAGE: &'static str = "accept-language";
pub const GRPC_TIMEOUT: &'static str = "grpc-timeout";
pub const GRPC_ENCODING: &'static str = "grpc-encoding";
pub const GRPC_ACCEPT_ENCODING: &'static str = "grpc-accept-encoding";
pub const REQUEST_ID: &'static str = "x-request-id";
pub const CORRELATION_ID: &'static str = "x-correlation-id";
pub const TRACEPARENT: &'static str = "traceparent";
pub const TRACESTATE: &'static str = "tracestate";
pub const B3_TRACE_ID: &'static str = "x-b3-traceid";
pub const B3_SPAN_ID: &'static str = "x-b3-spanid";
pub const B3_PARENT_SPAN_ID: &'static str = "x-b3-parentspanid";
pub const B3_SAMPLED: &'static str = "x-b3-sampled";
pub const B3: &'static str = "b3";
pub const X_FORWARDED_FOR: &'static str = "x-forwarded-for";
pub const X_FORWARDED_HOST: &'static str = "x-forwarded-host";
pub const X_FORWARDED_PROTO: &'static str = "x-forwarded-proto";
pub const X_REAL_IP: &'static str = "x-real-ip";
pub const API_KEY: &'static str = "x-api-key";
pub const CLIENT_ID: &'static str = "x-client-id";
pub const TENANT_ID: &'static str = "x-tenant-id";
pub const IDEMPOTENCY_KEY: &'static str = "idempotency-key";

/// A header name.
#[derive(Clone, Copy, Debug)]
pub struct HeaderKey {
    pub name: &'static str,
}

impl HeaderKey {
    pub fn new(name: &'static str) -> (r: HeaderKey)
        ensures
            r.name@ == name@,
    {
        HeaderKey { name }
    }

    pub fn as_str(&self) -> (r: &'static str)
        ensures
            r@ == self.name@,
    {
        self.name
    }
}

impl PartialEq for HeaderKey {
    fn eq(&self, other: &HeaderKey) -> (r: bool)
        ensures
            r == (self.name@ == other.name@),
    {
        crate::text::same_chars(self.name, other.name)
    }
}

impl vstd::std_specs::cmp::PartialEqSpecImpl for HeaderKey {
    open spec fn obeys_eq_spec() -> bool {
        true
    }

    open spec fn eq_spec(&self, other: &HeaderKey) -> bool {
        self.name@ == other.name@
    }
}

impl Eq for HeaderKey {}

/// Header access by key.
pub trait RequestExt {
    /// The headers, as the contracts see them.
    spec fn header_list(&self) -> HeaderSeq;

    /// The first value under `key`.
    fn header(&self, key: HeaderKey) -> (r: Option<String>)
        ensures
            r.deep_view() == find_header(self.header_list(), key.name@);
}

impl RequestExt for Request {
    open spec fn header_list(&self) -> HeaderSeq {
        self.headers.deep_view()
    }

    fn header(&self, key: HeaderKey) -> (r: Option<String>) {
        get_header(&self.headers, key.name)
    }
}

} // verus!
