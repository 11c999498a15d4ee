//! Error normalization: responses outside 2xx that are not already JSON are
//! rewritten into the standard error envelope.

use vstd::prelude::*;
use crate::environment::Environment;
use crate::error::{
    envelope_from_json, envelope_of, error_code_of, json_quote, json_string, reason_or,
    reason_phrase_or, status_to_error_code,
};
use crate::message::{
    find_header, get_header, lemma_put_then_find, put_header, set_header, HeaderSeq, Response,
};
use crate::text::{contains, occurs_at, occurs_in};

verus! {

/// What `String::from_utf8_lossy` gives for bytes: the text, with each
/// invalid sequence replaced by U+FFFD.
pub uninterp spec fn utf8_lossy(b: Seq<u8>) -> Seq<char>;

/// Relies on `String::from_utf8_lossy`: the text of the bytes, invalid
/// sequences replaced; no bytes give no text.
#[verifier::external_body]
fn body_text(b: &[u8]) -> (r: String)
    ensures
        r@ == utf8_lossy(b@),
        b@.len() == 0 ==> r@.len() == 0,
{
    String::from_utf8_lossy(b).into_owned()
}

/// Success statuses: 200 through 299.
pub open spec fn is_success_status(status: u16) -> bool {
    200 <= status <= 299
}

/// Whether the content type names JSON.
pub open spec fn declares_json(hs: HeaderSeq) -> bool {
    match find_header(hs, "content-type"@) {
        Some(v) => occurs_in(v, "application/json"@),
        None => false,
    }
}

/// Responses left as they are: successes, and JSON bodies.
pub open spec fn passes_through(status: u16, hs: HeaderSeq) -> bool {
    is_success_status(status) || declares_json(hs)
}

/// The envelope message: the body text, or the reason phrase when the text is
/// empty or internals are redacted.
pub open spec fn chosen_message(text: Seq<char>, redact: bool, status: u16) -> Seq<char> {
    if text.len() == 0 || redact {
        reason_or(status, "Error"@)
    } else {
        text
    }
}

/// `out` is what normalization makes of `resp`.
pub open spec fn normalizes_to(resp: Response, redact: bool, out: Response) -> bool {
    if passes_through(resp.status, resp.headers.deep_view()) {
        out == resp
    } else {
        &&& out.status == resp.status
        &&& out.headers.deep_view() == put_header(
            resp.headers.deep_view(),
            "content-type"@,
            "application/json"@,
        )
        &&& out.body@ == envelope_of(
            json_string(error_code_of(resp.status)),
            json_string(chosen_message(utf8_lossy(resp.body@), redact, resp.status)),
        )
    }
}

/// Whether a response with this status and these headers is left unchanged.
pub fn response_passes_through(status: u16, headers: &Vec<(String, String)>) -> (r: bool)
    ensures
        r == passes_through(status, headers.deep_view()),
{
    if 200 <= status && status <= 299 {
        return true;
    }
    match get_header(headers, "content-type") {
        Some(v) => contains(v.as_str(), "application/json"),
        None => false,
    }
}

/// The envelope message for a body text and a reason phrase.
pub fn choose_message(text: &str, redact: bool, reason: &str) -> (r: String)
    ensures
        r@ == (if text@.len() == 0 || redact { reason@ } else { text@ }),
{
    if text.unicode_len() == 0 || redact {
        reason.to_owned()
    } else {
        text.to_owned()
    }
}

/// Layer that normalizes responses outside 2xx.
#[derive(Clone, Copy, Debug)]
pub struct JsonErrorLayer {
    pub environment: Environment,
}

/// A service wrapped by [`JsonErrorLayer`].
#[derive(Clone, Debug)]
pub struct JsonErrorService<S> {
    pub inner: S,
    pub environment: Environment,
}

impl JsonErrorLayer {
    pub fn new(environment: Environment) -> (r: JsonErrorLayer)
        ensures
            r.environment == environment,
    {
        JsonErrorLayer { environment }
    }

    pub fn layer<S>(&self, inner: S) -> (r: JsonErrorService<S>)
        ensures
            r.inner == inner,
            r.environment == self.environment,
    {
        JsonErrorService { inner, environment: self.environment }
    }
}

impl<S> JsonErrorService<S> {
    /// Whether a response with this status and these headers is left as it
    /// is; only the others need their body read.
    pub fn passes_through(&self, status: u16, headers: &Vec<(String, String)>) -> (r: bool)
        ensures
            r == passes_through(status, headers.deep_view()),
    {
        response_passes_through(status, headers)
    }

    /// Normalizes a response from the inner service.
    pub fn normalize(&self, resp: Response) -> (r: Response)
        ensures
            normalizes_to(resp, self.environment == Environment::Production, r),
            !passes_through(resp.status, resp.headers.deep_view()) && resp.body@.len() == 0
                ==> r.body@ == envelope_of(
                json_string(error_code_of(resp.status)),
                json_string(reason_or(resp.status, "Error"@)),
            ),
    {
        normalize_response(resp, self.environment.is_production())
    }
}

/// Normalizes a response: one outside 2xx that is not JSON gets the error
/// envelope, with the body text as message unless it is empty or `redact`
/// holds; an empty body gives the reason phrase in every environment.
pub fn normalize_response(resp: Response, redact: bool) -> (r: Response)
    ensures
        normalizes_to(resp, redact, r),
        !passes_through(resp.status, resp.headers.deep_view()) && resp.body@.len() == 0
            ==> r.body@ == envelope_of(
                json_string(error_code_of(resp.status)),
                json_string(reason_or(resp.status, "Error"@)),
            ),
{
    if response_passes_through(resp.status, &resp.headers) {
        return resp;
    }
    let status = resp.status;
    let text = body_text(resp.body.as_slice());
    let reason = reason_phrase_or(status, "Error");
    let message = choose_message(text.as_str(), redact, reason.as_str());
    let code = status_to_error_code(status);
    let code_json = json_quote(code.as_str());
    let message_json = json_quote(message.as_str());
    let body = envelope_from_json(code_json.as_slice(), message_json.as_slice());
    let mut headers = resp.headers;
    set_header(&mut headers, "content-type", "application/json");
    Response { status, headers, body }
}

/// A response that normalization produced declares JSON, so it passes through.
proof fn lemma_output_passes(resp: Response, redact: bool, out: Response)
    requires
        normalizes_to(resp, redact, out),
    ensures
        passes_through(out.status, out.headers.deep_view()),
{
    if !passes_through(resp.status, resp.headers.deep_view()) {
        lemma_put_then_find(resp.headers.deep_view(), "content-type"@, "application/json"@);
        assert("application/json"@.subrange(0, "application/json"@.len() as int)
            == "application/json"@);
        assert(occurs_at("application/json"@, "application/json"@, 0));
    }
}

/// A 2xx response passes through byte for byte, whatever its body; so does
/// any response that already declares JSON.
pub proof fn law_pass_through(resp: Response, redact: bool, out: Response)
    requires
        normalizes_to(resp, redact, out),
        is_success_status(resp.status) || declares_json(resp.headers.deep_view()),
    ensures
        out == resp,
{
}

/// Any other response that is not JSON is rewritten into the envelope of its
/// status code; the message is the body text in development, and the reason
/// phrase when redacted or when the body is empty. Headers other than the
/// content type are kept.
pub proof fn law_rewrite(resp: Response, redact: bool, out: Response)
    requires
        normalizes_to(resp, redact, out),
        !is_success_status(resp.status),
        !declares_json(resp.headers.deep_view()),
    ensures
        out.status == resp.status,
        find_header(out.headers.deep_view(), "content-type"@) == Some("application/json"@),
        !redact && utf8_lossy(resp.body@).len() > 0 ==> out.body@ == envelope_of(
            json_string(error_code_of(resp.status)),
            json_string(utf8_lossy(resp.body@)),
        ),
        redact ==> out.body@ == envelope_of(
            json_string(error_code_of(resp.status)),
            json_string(reason_or(resp.status, "Error"@)),
        ),
{
    lemma_put_then_find(resp.headers.deep_view(), "content-type"@, "application/json"@);
}

/// Normalization is a fixed point: normalizing its output changes nothing.
pub proof fn law_normalize_idempotent(resp: Response, redact: bool, once: Response, twice: Response)
    requires
        normalizes_to(resp, redact, once),
        normalizes_to(once, redact, twice),
    ensures
        twice == once,
{
    lemma_output_passes(resp, redact, once);
}

} // verus!
