//! Request identification: every request carries an `x-request-id`; one is
//! generated when absent, kept verbatim when present, and copied onto the
//! response.

use vstd::prelude::*;
use crate::message::{
    find_header, get_header, lemma_put_then_find, put_header, set_header, HeaderSeq, Request,
    Response,
};

verus! {

/// The header that carries the request identifier.
pub const REQUEST_ID_HEADER: &'static str = "x-request-id";

/// Lower-case hexadecimal digits.
pub open spec fn is_lower_hex(c: char) -> bool {
    ('0' <= c && c <= '9') || ('a' <= c && c <= 'f')
}

/// The hyphenated form of a UUID: 36 characters, hyphens at 8, 13, 18 and
/// 23, lower-case hexadecimal digits elsewhere.
pub open spec fn is_hyphenated_uuid(s: Seq<char>) -> bool {
    &&& s.len() == 36
    &&& forall|i: int|
        0 <= i < 36 ==> if i == 8 || i == 13 || i == 18 || i == 23 {
            #[trigger] s[i] == '-'
        } else {
            is_lower_hex(s[i])
        }
}

/// Relies on `uuid::Uuid::new_v4` and its `Display`, which writes the
/// hyphenated lower-case form. The value itself is random.
#[verifier::external_body]
fn fresh_request_id() -> (r: String)
    ensures
        is_hyphenated_uuid(r@),
{
    uuid::Uuid::new_v4().to_string()
}

/// The request identifier of a header list.
pub open spec fn request_id_of(hs: HeaderSeq) -> Option<Seq<char>> {
    find_header(hs, "x-request-id"@)
}

/// `out` is `req` after identification with `fresh` as the generated value:
/// unchanged when it already has an identifier, else given `fresh`.
pub open spec fn identified(req: Request, fresh: Seq<char>, out: Request) -> bool {
    if request_id_of(req.headers.deep_view()) is Some {
        out == req
    } else {
        &&& out.method == req.method
        &&& out.path == req.path
        &&& out.headers.deep_view() == put_header(req.headers.deep_view(), "x-request-id"@, fresh)
    }
}

/// `out` is `resp` carrying the identifier `id`, whatever it carried before.
pub open spec fn propagated(id: Seq<char>, resp: Response, out: Response) -> bool {
    &&& out.status == resp.status
    &&& out.body == resp.body
    &&& out.headers.deep_view() == put_header(resp.headers.deep_view(), "x-request-id"@, id)
}

/// Gives `req` the identifier `fresh` unless it already has one.
pub fn with_request_id(req: Request, fresh: &str) -> (r: Request)
    ensures
        identified(req, fresh@, r),
{
    if get_header(&req.headers, REQUEST_ID_HEADER).is_some() {
        return req;
    }
    let Request { method, path, mut headers } = req;
    proof {
        reveal_strlit("x-request-id");
    }
    set_header(&mut headers, REQUEST_ID_HEADER, fresh);
    Request { method, path, headers }
}

/// Sets the response's identifier to `id`, replacing one the handler set.
pub fn propagate_request_id(id: &str, resp: Response) -> (r: Response)
    ensures
        propagated(id@, resp, r),
{
    let Response { status, mut headers, body } = resp;
    set_header(&mut headers, REQUEST_ID_HEADER, id);
    Response { status, headers, body }
}

/// Layer that identifies requests.
#[derive(Clone, Copy, Debug, Default)]
pub struct RequestIdLayer;

/// A service wrapped by [`RequestIdLayer`].
#[derive(Clone, Debug)]
pub struct RequestIdService<S> {
    pub inner: S,
}

impl RequestIdLayer {
    pub fn new() -> (r: RequestIdLayer) {
        RequestIdLayer
    }

    pub fn layer<S>(&self, inner: S) -> (r: RequestIdService<S>)
        ensures
            r.inner == inner,
    {
        RequestIdService { inner }
    }
}

/// Identifies a request: returns it with an identifier, and that identifier.
/// An existing one is kept verbatim; a new one is a random UUID.
pub fn ensure_request_id(req: Request) -> (r: (Request, String))
    ensures
        request_id_of(r.0.headers.deep_view()) == Some(r.1@),
        request_id_of(req.headers.deep_view()) is Some ==> r.0 == req && Some(r.1@)
            == request_id_of(req.headers.deep_view()),
        request_id_of(req.headers.deep_view()) is None ==> identified(req, r.1@, r.0)
            && is_hyphenated_uuid(r.1@),
{
    proof {
        reveal_strlit("x-request-id");
    }
    match get_header(&req.headers, REQUEST_ID_HEADER) {
        Some(id) => (req, id),
        None => {
            let id = fresh_request_id();
            let out = with_request_id(req, id.as_str());
            proof {
                lemma_put_then_find(req.headers.deep_view(), "x-request-id"@, id@);
            }
            (out, id)
        },
    }
}

impl<S> RequestIdService<S> {
    /// The request as the inner service sees it, and its identifier.
    pub fn begin(&self, req: Request) -> (r: (Request, String))
        ensures
            request_id_of(r.0.headers.deep_view()) == Some(r.1@),
            request_id_of(req.headers.deep_view()) is Some ==> r.0 == req && Some(r.1@)
                == request_id_of(req.headers.deep_view()),
            request_id_of(req.headers.deep_view()) is None ==> identified(req, r.1@, r.0)
                && is_hyphenated_uuid(r.1@),
    {
        ensure_request_id(req)
    }

    /// The inner service's response, carrying the request's identifier.
    pub fn end(&self, id: &str, resp: Response) -> (r: Response)
        ensures
            propagated(id@, resp, r),
    {
        propagate_request_id(id, resp)
    }
}

/// Interceptor form of identification for RPC requests.
#[derive(Clone, Copy, Debug, Default)]
pub struct RequestIdInterceptor;

impl RequestIdInterceptor {
    pub fn new() -> (r: RequestIdInterceptor) {
        RequestIdInterceptor
    }

    /// The request with an identifier: kept when present, else a random UUID.
    pub fn intercept(&self, req: Request) -> (r: Request)
        ensures
            request_id_of(r.headers.deep_view()) is Some,
            request_id_of(req.headers.deep_view()) is Some ==> r == req,
            request_id_of(req.headers.deep_view()) is None ==> identified(
                req,
                request_id_of(r.headers.deep_view())->Some_0,
                r,
            ) && is_hyphenated_uuid(request_id_of(r.headers.deep_view())->Some_0),
    {
        ensure_request_id(req).0
    }
}

/// A request without an identifier gets the generated one back on its
/// response; a request with one gets exactly that one back. A value the
/// handler set is overwritten either way.
pub proof fn law_request_id_round_trip(
    req: Request,
    fresh: Seq<char>,
    forwarded: Request,
    resp: Response,
    out: Response,
)
    requires
        identified(req, fresh, forwarded),
        request_id_of(forwarded.headers.deep_view()) is Some,
        propagated(request_id_of(forwarded.headers.deep_view())->Some_0, resp, out),
    ensures
        request_id_of(req.headers.deep_view()) is None ==> request_id_of(out.headers.deep_view())
            == Some(fresh),
        request_id_of(req.headers.deep_view()) is Some ==> request_id_of(out.headers.deep_view())
            == request_id_of(req.headers.deep_view()),
{
    let id = request_id_of(forwarded.headers.deep_view())->Some_0;
    lemma_put_then_find(resp.headers.deep_view(), "x-request-id"@, id);
    if request_id_of(req.headers.deep_view()) is None {
        lemma_put_then_find(req.headers.deep_view(), "x-request-id"@, fresh);
    }
}

/// Identifying a request that already has an identifier changes nothing.
pub proof fn law_identification_idempotent(req: Request, fresh: Seq<char>, out: Request)
    requires
        request_id_of(req.headers.deep_view()) is Some,
        identified(req, fresh, out),
    ensures
        out == req,
{
}

} // verus!
