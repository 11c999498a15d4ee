//! The fixed composition of the layers around a handler.
//!
//! Requests pass, outermost first: error normalization, tracing, request
//! identification, then authentication and rate limiting next to the handler.
//! Responses come back the other way: the identifier is copied on, and error
//! normalization, outermost, sees every response, short-circuits included.
//! The caller runs the handler between [`Pipeline::enter`] and
//! [`Pipeline::leave`].

use vstd::prelude::*;
use crate::auth::{auth_step, bearer_of, refuses_with, step_for, AuthError, TokenValidator};
use crate::environment::Environment;
use crate::error::{envelope_of, error_code_of, json_headers, json_string};
use crate::json_error::{
    chosen_message, declares_json, normalize_response, normalizes_to,
    passes_through, utf8_lossy,
};
use crate::message::{
    find_header, lemma_find_other, lemma_put_settled, lemma_put_then_find, lemma_put_settles, lemma_settled_other,
    put_header, Request, Response, Step,
};
use crate::ratelimit::{acquire_spec, gate, refuses_over_quota, TokenBucket};
use crate::request_id::{
    ensure_request_id, identified, is_hyphenated_uuid, propagate_request_id, propagated,
    request_id_of,
};
use crate::text::{occurs_at, occurs_in};
use crate::trace::{header_or, RequestSpan, SpanFields};

verus! {

/// The layers around one handler.
#[derive(Debug)]
pub struct Pipeline<V> {
    pub environment: Environment,
    /// Validator of bearer credentials, when requests must authenticate.
    pub auth: Option<V>,
    /// Shared bucket, when requests are rate limited.
    pub limiter: Option<TokenBucket>,
}

/// What entering the pipeline gave.
#[derive(Debug)]
pub struct Entered {
    /// The tracing span's fields, as the request arrived.
    pub span: SpanFields,
    /// The identifier the response will carry.
    pub request_id: String,
    /// Call the handler with this request, or answer at once.
    pub step: Step,
}

/// `out` is the response that leaves the pipeline when `resp` comes back for
/// a request identified by `id`: the identifier set, then normalized.
pub open spec fn leaves_as(id: Seq<char>, resp: Response, redact: bool, out: Response) -> bool {
    let hs = put_header(resp.headers.deep_view(), "x-request-id"@, id);
    &&& out.status == resp.status
    &&& if passes_through(resp.status, hs) {
        out.headers.deep_view() == hs && out.body@ == resp.body@
    } else {
        &&& out.headers.deep_view() == put_header(hs, "content-type"@, "application/json"@)
        &&& out.body@ == envelope_of(
            json_string(error_code_of(resp.status)),
            json_string(chosen_message(utf8_lossy(resp.body@), redact, resp.status)),
        )
    }
}

/// `step` and `after` are what the gates make of the identified request
/// `req`: the validator's verdict first (`None` when no validator is set),
/// then, for a request it lets through, the bucket (`None` when unlimited).
/// A refusal by the validator leaves the bucket untouched.
pub open spec fn gated(
    req: Request,
    verdict: Option<Option<Result<(), AuthError>>>,
    bucket: Option<TokenBucket>,
    now_ns: u64,
    step: Step,
    after: Option<TokenBucket>,
) -> bool {
    if verdict is Some && !(verdict->Some_0 matches Some(Ok(_))) {
        auth_step(req, verdict->Some_0, step) && after == bucket
    } else {
        match bucket {
            None => step == Step::Forward(req) && after == bucket,
            Some(b) => {
                &&& after == Some(acquire_spec(b, now_ns).0)
                &&& if acquire_spec(b, now_ns).1 {
                    step == Step::Forward(req)
                } else {
                    step is Respond && refuses_over_quota(step->Respond_0)
                }
            },
        }
    }
}

impl<V: TokenValidator> Pipeline<V> {
    pub open spec fn wf(&self) -> bool {
        self.limiter is Some ==> self.limiter->Some_0.wf()
    }

    /// Normalization and identification only.
    pub fn new(environment: Environment) -> (r: Pipeline<V>)
        ensures
            r.wf(),
            r.environment == environment,
            r.auth is None,
            r.limiter is None,
    {
        Pipeline { environment, auth: None, limiter: None }
    }

    /// Requests must carry a bearer credential that `validator` accepts.
    pub fn with_auth(self, validator: V) -> (r: Pipeline<V>)
        ensures
            r.environment == self.environment,
            r.auth == Some(validator),
            r.limiter == self.limiter,
    {
        Pipeline { auth: Some(validator), ..self }
    }

    /// Requests draw from `bucket`.
    pub fn with_limiter(self, bucket: TokenBucket) -> (r: Pipeline<V>)
        requires
            bucket.wf(),
        ensures
            r.wf(),
            r.environment == self.environment,
            r.auth == self.auth,
            r.limiter == Some(bucket),
    {
        Pipeline { limiter: Some(bucket), ..self }
    }

    /// The request phase at time `now_ns`.
    pub fn enter(&mut self, req: Request, now_ns: u64) -> (r: Entered)
        requires
            old(self).wf(),
        ensures
            final(self).wf(),
            final(self).environment == old(self).environment,
            final(self).auth == old(self).auth,
            r.span.method@ == req.method@,
            r.span.path@ == req.path@,
            r.span.request_id@ == header_or(req.headers.deep_view(), "x-request-id"@, "-"@),
            request_id_of(req.headers.deep_view()) is Some ==> Some(r.request_id@)
                == request_id_of(req.headers.deep_view()),
            request_id_of(req.headers.deep_view()) is None ==> is_hyphenated_uuid(r.request_id@),
            r.step is Forward ==> identified(req, r.request_id@, r.step->Forward_0),
            r.step is Respond ==> r.step->Respond_0.status == 401 || r.step->Respond_0.status
                == 403 || r.step->Respond_0.status == 429,
            old(self).auth is None && old(self).limiter is None ==> r.step is Forward,
            old(self).auth is Some && r.step is Forward ==> bearer_of(req.headers.deep_view()) is Some,
            old(self).auth is Some && bearer_of(req.headers.deep_view()) is None ==> r.step is Respond
                && refuses_with(AuthError::MissingToken, r.step->Respond_0) && final(self).limiter
                == old(self).limiter,
            old(self).auth is None && old(self).limiter is Some ==> final(self).limiter == Some(
                acquire_spec(old(self).limiter->Some_0, now_ns).0,
            ) && (r.step is Forward <==> acquire_spec(old(self).limiter->Some_0, now_ns).1),
            exists|req1: Request, v: Option<Option<Result<(), AuthError>>>|
                #[trigger] gated(req1, v, old(self).limiter, now_ns, r.step, final(self).limiter)
                    && identified(req, r.request_id@, req1) && (v is None <==> old(self).auth is None)
                    && (v is Some ==> (v->Some_0 is None <==> bearer_of(req.headers.deep_view()) is None)),
    {
        let span = RequestSpan.make_span(&req);
        let ghost incoming = req;
        let (req, id) = ensure_request_id(req);
        proof {
            lemma_names_distinct();
            if request_id_of(incoming.headers.deep_view()) is None {
                lemma_find_other(incoming.headers.deep_view(), "x-request-id"@, id@, "authorization"@);
            }
        }
        let ghost req1 = req;
        let ghost bucket = self.limiter;
        let ghost mut gv: Option<Option<Result<(), AuthError>>> = None;
        let step = match &self.auth {
            Some(v) => {
                let verdict = match crate::auth::bearer_token(&req.headers) {
                    None => None,
                    Some(t) => Some(v.validate(t.as_str())),
                };
                proof {
                    gv = Some(verdict);
                }
                step_for(req, verdict)
            },
            None => Step::Forward(req),
        };
        let step = match step {
            Step::Forward(f) => match &mut self.limiter {
                Some(b) => gate(b, now_ns, f),
                None => Step::Forward(f),
            },
            Step::Respond(resp) => Step::Respond(resp),
        };
        assert(gated(req1, gv, bucket, now_ns, step, self.limiter));
        Entered { span, request_id: id, step }
    }

    /// The response phase: what leaves the pipeline when `resp` comes back
    /// for the request identified by `request_id`.
    pub fn leave(&self, request_id: &str, resp: Response) -> (r: Response)
        ensures
            leaves_as(request_id@, resp, self.environment == Environment::Production, r),
    {
        let mid = propagate_request_id(request_id, resp);
        normalize_response(mid, self.environment.is_production())
    }
}

/// The header names the layers use are distinct.
proof fn lemma_names_distinct()
    ensures
        "x-request-id"@ != "authorization"@,
        "x-request-id"@ != "content-type"@,
{
    reveal_strlit("x-request-id");
    reveal_strlit("authorization");
    reveal_strlit("content-type");
    assert("x-request-id"@[0] != "authorization"@[0]);
    assert("x-request-id"@[0] != "content-type"@[0]);
}

/// A refusal from authentication or rate limiting keeps its status and body
/// on the way out: it is already JSON, so normalization leaves it alone.
pub proof fn law_refusal_leaves_unchanged(id: Seq<char>, resp: Response, redact: bool, out: Response)
    requires
        resp.headers.deep_view() == json_headers(),
        leaves_as(id, resp, redact, out),
    ensures
        out.status == resp.status,
        out.body@ == resp.body@,
        find_header(out.headers.deep_view(), "x-request-id"@) == Some(id),
{
    let hs = put_header(resp.headers.deep_view(), "x-request-id"@, id);
    lemma_names_distinct();
    lemma_find_other(resp.headers.deep_view(), "x-request-id"@, id, "content-type"@);
    assert(json_headers()[0].0 == "content-type"@);
    assert(find_header(json_headers(), "content-type"@) == Some("application/json"@));
    assert("application/json"@.subrange(0, "application/json"@.len() as int) == "application/json"@);
    assert(occurs_at("application/json"@, "application/json"@, 0));
    assert(declares_json(hs));
    lemma_put_then_find(resp.headers.deep_view(), "x-request-id"@, id);
}

/// Running the response phase again on what left the pipeline changes
/// nothing: status, headers and body are the same.
pub proof fn law_leave_idempotent(
    id: Seq<char>,
    resp: Response,
    redact: bool,
    once: Response,
    twice: Response,
)
    requires
        leaves_as(id, resp, redact, once),
        leaves_as(id, once, redact, twice),
    ensures
        twice.status == once.status,
        twice.headers.deep_view() == once.headers.deep_view(),
        twice.body@ == once.body@,
{
    let hs = put_header(resp.headers.deep_view(), "x-request-id"@, id);
    lemma_put_settles(resp.headers.deep_view(), "x-request-id"@, id);
    lemma_names_distinct();
    if passes_through(resp.status, hs) {
        lemma_put_settled(hs, "x-request-id"@, id);
    } else {
        let out = put_header(hs, "content-type"@, "application/json"@);
        lemma_settled_other(hs, "x-request-id"@, id, "content-type"@, "application/json"@);
        lemma_put_settled(out, "x-request-id"@, id);
        lemma_put_then_find(hs, "content-type"@, "application/json"@);
        assert("application/json"@.subrange(0, "application/json"@.len() as int)
            == "application/json"@);
        assert(occurs_at("application/json"@, "application/json"@, 0));
        assert(declares_json(out));
    }
}

/// A handler's success response leaves with its status and body unchanged;
/// only the request identifier is set on it.
pub proof fn law_success_leaves_unchanged(id: Seq<char>, resp: Response, redact: bool, out: Response)
    requires
        leaves_as(id, resp, redact, out),
        200 <= resp.status <= 299,
    ensures
        out.status == resp.status,
        out.body@ == resp.body@,
        out.headers.deep_view() == put_header(resp.headers.deep_view(), "x-request-id"@, id),
{
}

} // verus!
