//! Authentication: bearer credentials taken from the `authorization` header
//! and checked by a pluggable validator; failures short-circuit with an
//! error response and never reach the inner service.

use vstd::prelude::*;
use crate::error::{envelope_of, error_code_of, json_headers, json_string, ErrorResponse};
use crate::message::{find_header, get_header, HeaderSeq, Request, Response, Step};
use crate::text::{has_prefix, strip_prefix};

verus! {

/// Why a request was refused.
#[derive(Clone, Debug)]
pub enum AuthError {
    /// No bearer credential in the request.
    MissingToken,
    /// The credential could not be decoded or verified.
    InvalidToken(String),
    /// The credential's expiry time has passed.
    TokenExpired,
    /// The credential is valid but not allowed here.
    Forbidden,
}

/// The status of a refusal: 403 for `Forbidden`, 401 for the others.
pub open spec fn auth_status(e: AuthError) -> u16 {
    match e {
        AuthError::Forbidden => 403,
        _ => 401,
    }
}

/// The human-readable text of a refusal.
pub open spec fn auth_message(e: AuthError) -> Seq<char> {
    match e {
        AuthError::MissingToken => "Missing authorization token"@,
        AuthError::InvalidToken(m) => "Invalid token: "@ + m@,
        AuthError::TokenExpired => "Token has expired"@,
        AuthError::Forbidden => "Insufficient permissions"@,
    }
}

/// `r` is the response that refuses a request for the reason `e`.
pub open spec fn refuses_with(e: AuthError, r: Response) -> bool {
    &&& r.status == auth_status(e)
    &&& r.headers.deep_view() == json_headers()
    &&& r.body@ == envelope_of(
        json_string(error_code_of(auth_status(e))),
        json_string(auth_message(e)),
    )
}

/// How a token decoder reported a failure.
#[derive(Clone, Debug)]
pub enum DecodeFailure {
    /// The token's signature is valid but it has expired.
    Expired,
    /// Any other failure, with its description.
    Invalid(String),
}

impl AuthError {
    pub fn status(&self) -> (r: u16)
        ensures
            r == auth_status(*self),
    {
        match self {
            AuthError::Forbidden => 403,
            _ => 401,
        }
    }

    /// The text of the refusal.
    pub fn message(&self) -> (r: String)
        ensures
            r@ == auth_message(*self),
    {
        match self {
            AuthError::MissingToken => "Missing authorization token".to_owned(),
            AuthError::InvalidToken(m) => {
                let mut s = "Invalid token: ".to_owned();
                s.append(m.as_str());
                s
            },
            AuthError::TokenExpired => "Token has expired".to_owned(),
            AuthError::Forbidden => "Insufficient permissions".to_owned(),
        }
    }

    /// The refusal as a response with the standard JSON error body.
    pub fn into_response(&self) -> (r: Response)
        ensures
            refuses_with(*self, r),
    {
        let status = self.status();
        let body = ErrorResponse::from_status(status, self.message().as_str());
        body.into_response(status)
    }

    /// The refusal for a decoder failure: expiry stays distinct, anything
    /// else is an invalid token.
    pub fn from_decode_failure(f: DecodeFailure) -> (r: AuthError)
        ensures
            f is Expired ==> r is TokenExpired,
            f is Invalid ==> r == AuthError::InvalidToken(f->Invalid_0),
    {
        match f {
            DecodeFailure::Expired => AuthError::TokenExpired,
            DecodeFailure::Invalid(m) => AuthError::InvalidToken(m),
        }
    }
}

/// The credential of a header list: the `authorization` value after its
/// `Bearer ` prefix; none when the header is absent or has another scheme.
pub open spec fn bearer_of(hs: HeaderSeq) -> Option<Seq<char>> {
    match find_header(hs, "authorization"@) {
        Some(v) => if has_prefix(v, "Bearer "@) {
            Some(v.subrange("Bearer "@.len() as int, v.len() as int))
        } else {
            None
        },
        None => None,
    }
}

/// The bearer credential of a request's headers.
pub fn bearer_token(headers: &Vec<(String, String)>) -> (r: Option<String>)
    ensures
        r.deep_view() == bearer_of(headers.deep_view()),
{
    match get_header(headers, "authorization") {
        Some(v) => strip_prefix(v.as_str(), "Bearer "),
        None => None,
    }
}

/// Checks credentials; implemented by signed-token decoders and by plain
/// predicates alike.
pub trait TokenValidator {
    /// `Ok` when the credential is accepted.
    fn validate(&self, token: &str) -> Result<(), AuthError>;
}

/// `step` is what the layer does with `req` given the validator's verdict
/// (`None` when the request carries no bearer credential).
pub open spec fn auth_step(req: Request, verdict: Option<Result<(), AuthError>>, step: Step) -> bool {
    match verdict {
        None => step is Respond && refuses_with(AuthError::MissingToken, step->Respond_0),
        Some(Ok(())) => step == Step::Forward(req),
        Some(Err(e)) => step is Respond && refuses_with(e, step->Respond_0),
    }
}

/// The layer's step for a request, given the validator's verdict.
pub fn step_for(req: Request, verdict: Option<Result<(), AuthError>>) -> (r: Step)
    ensures
        auth_step(req, verdict, r),
{
    match verdict {
        None => Step::Respond(AuthError::MissingToken.into_response()),
        Some(Ok(())) => Step::Forward(req),
        Some(Err(e)) => Step::Respond(e.into_response()),
    }
}

/// Layer that authenticates requests with a validator.
#[derive(Clone, Debug)]
pub struct AuthLayer<V> {
    pub validator: V,
}

/// A service wrapped by [`AuthLayer`].
#[derive(Clone, Debug)]
pub struct AuthService<S, V> {
    pub inner: S,
    pub validator: V,
}

impl<V: TokenValidator + Clone> AuthLayer<V> {
    pub fn new(validator: V) -> (r: AuthLayer<V>)
        ensures
            r.validator == validator,
    {
        AuthLayer { validator }
    }

    pub fn layer<S>(&self, inner: S) -> (r: AuthService<S, V>)
        ensures
            r.inner == inner,
    {
        AuthService { inner, validator: self.validator.clone() }
    }
}

impl<S, V: TokenValidator> AuthService<S, V> {
    /// The validator's verdict on a request: `None` without a bearer
    /// credential, in which case the validator is not asked.
    pub fn verdict(&self, req: &Request) -> (r: Option<Result<(), AuthError>>)
        ensures
            r is None <==> bearer_of(req.headers.deep_view()) is None,
    {
        match bearer_token(&req.headers) {
            None => None,
            Some(t) => Some(self.validator.validate(t.as_str())),
        }
    }

    /// What to do with a request: forward it unchanged, or refuse it with 401
    /// (403 when the validator answers `Forbidden`).
    pub fn begin(&self, req: Request) -> (r: Step)
        ensures
            exists|v: Option<Result<(), AuthError>>| #[trigger] auth_step(req, v, r)
                && (v is None <==> bearer_of(req.headers.deep_view()) is None),
            bearer_of(req.headers.deep_view()) is None ==> r is Respond && refuses_with(
                AuthError::MissingToken,
                r->Respond_0,
            ),
            r is Respond ==> r->Respond_0.status == 401 || r->Respond_0.status == 403,
    {
        let v = self.verdict(&req);
        step_for(req, v)
    }
}

/// Interceptor form of authentication for RPC requests.
#[derive(Clone, Debug)]
pub struct AuthInterceptor<V> {
    pub validator: V,
}

impl<V: TokenValidator> AuthInterceptor<V> {
    pub fn new(validator: V) -> (r: AuthInterceptor<V>)
        ensures
            r.validator == validator,
    {
        AuthInterceptor { validator }
    }

    /// `Ok` when the request carries a bearer credential that the validator
    /// accepts; `MissingToken` without one.
    pub fn intercept(&self, req: &Request) -> (r: Result<(), AuthError>)
        ensures
            bearer_of(req.headers.deep_view()) is None ==> r matches Err(AuthError::MissingToken),
    {
        match bearer_token(&req.headers) {
            None => Err(AuthError::MissingToken),
            Some(t) => self.validator.validate(t.as_str()),
        }
    }
}

/// Relies on `SystemTime::elapsed` on `UNIX_EPOCH`: the current time in
/// whole seconds; 0 for a clock set before 1970. The value depends on the
/// clock.
#[verifier::external_body]
fn now() -> (r: u64) {
    std::time::UNIX_EPOCH.elapsed().map(|d| d.as_secs()).unwrap_or(0)
}

/// Standard claims of a signed token.
#[derive(Clone, Debug)]
pub struct Claims {
    /// Subject (user identifier).
    pub sub: String,
    /// Expiration time, Unix seconds.
    pub exp: u64,
    /// Issue time, Unix seconds.
    pub iat: u64,
}

/// `a + b`, or the largest `u64` when that overflows.
pub open spec fn saturating_sum(a: u64, b: u64) -> u64 {
    if a + b > u64::MAX { u64::MAX } else { (a + b) as u64 }
}

impl Claims {
    /// Claims issued at `now` for `sub`, expiring `expires_in_secs` later.
    pub fn issued_at(sub: &str, now: u64, expires_in_secs: u64) -> (r: Claims)
        ensures
            r.sub@ == sub@,
            r.iat == now,
            r.exp == saturating_sum(now, expires_in_secs),
    {
        Claims { sub: sub.to_owned(), exp: now.saturating_add(expires_in_secs), iat: now }
    }

    /// Claims issued now for `sub`, expiring `expires_in_secs` from now.
    pub fn new(sub: &str, expires_in_secs: u64) -> (r: Claims)
        ensures
            r.sub@ == sub@,
            r.exp == saturating_sum(r.iat, expires_in_secs),
    {
        Self::issued_at(sub, now(), expires_in_secs)
    }
}

/// A request whose credential the validator accepts reaches the inner service
/// unchanged.
pub proof fn law_accepted_forwards(req: Request, step: Step)
    requires
        auth_step(req, Some(Ok(())), step),
    ensures
        step == Step::Forward(req),
{
}

/// A request without an `authorization` header is refused with 401 and
/// never forwarded.
pub proof fn law_missing_refused(req: Request, v: Option<Result<(), AuthError>>, step: Step)
    requires
        auth_step(req, v, step),
        find_header(req.headers.deep_view(), "authorization"@) is None,
        v is None <==> bearer_of(req.headers.deep_view()) is None,
    ensures
        step is Respond,
        step->Respond_0.status == 401,
        step->Respond_0.body@ == envelope_of(
            json_string(error_code_of(401)),
            json_string("Missing authorization token"@),
        ),
{
}

/// An expired credential and a malformed one are refused with the same
/// status, 401, for different stated causes.
pub proof fn law_expired_distinct_from_malformed(
    req: Request,
    detail: String,
    expired: Step,
    malformed: Step,
)
    requires
        auth_step(req, Some(Err(AuthError::TokenExpired)), expired),
        auth_step(req, Some(Err(AuthError::InvalidToken(detail))), malformed),
    ensures
        expired is Respond && malformed is Respond,
        expired->Respond_0.status == 401,
        malformed->Respond_0.status == 401,
        auth_message(AuthError::TokenExpired) != auth_message(AuthError::InvalidToken(detail)),
{
    reveal_strlit("Token has expired");
    reveal_strlit("Invalid token: ");
    let a = auth_message(AuthError::TokenExpired);
    let b = auth_message(AuthError::InvalidToken(detail));
    assert(a[0] != b[0]);
}

} // verus!
