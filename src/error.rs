//! Error codes derived from status codes, and the JSON error envelope
//! `{"code": ..., "message": ...}` that failure responses carry.

use vstd::prelude::*;
use vstd::utf8::encode_utf8;
use crate::message::Response;
use crate::text::{push_char, upper_of, uppercase};

verus! {

/// What `http::StatusCode::canonical_reason` gives for a status number: the
/// registered reason phrase, when there is one.
pub uninterp spec fn reason_of(status: u16) -> Option<Seq<char>>;

/// A lower-case hexadecimal digit, as a byte.
pub open spec fn hex_digit(d: u32) -> u8 {
    if d < 10 { (48 + d) as u8 } else { (87 + d) as u8 }
}

/// One character inside a JSON string literal: `"` and `\` and the control
/// characters escaped (short forms for backspace, tab, line feed, form feed
/// and carriage return, `\u00xx` for the rest), anything else as UTF-8.
pub open spec fn json_escaped_char(c: char) -> Seq<u8> {
    let n = c as u32;
    if n == 0x22 {
        seq![92u8, 34u8]
    } else if n == 0x5c {
        seq![92u8, 92u8]
    } else if n == 0x08 {
        seq![92u8, 98u8]
    } else if n == 0x09 {
        seq![92u8, 116u8]
    } else if n == 0x0a {
        seq![92u8, 110u8]
    } else if n == 0x0c {
        seq![92u8, 102u8]
    } else if n == 0x0d {
        seq![92u8, 114u8]
    } else if n < 0x20 {
        seq![92u8, 117u8, 48u8, 48u8, hex_digit(n / 16), hex_digit(n % 16)]
    } else {
        encode_utf8(seq![c])
    }
}

/// The characters of a string, escaped for a JSON string literal.
pub open spec fn json_escaped(s: Seq<char>) -> Seq<u8>
    decreases s.len(),
{
    if s.len() == 0 {
        Seq::empty()
    } else {
        json_escaped(s.drop_last()) + json_escaped_char(s.last())
    }
}

/// The JSON string literal of a string: its escaped characters in quotes.
pub open spec fn json_string(s: Seq<char>) -> Seq<u8> {
    seq![34u8] + json_escaped(s) + seq![34u8]
}

/// Relies on `http::StatusCode::from_u16` and `StatusCode::canonical_reason`:
/// the reason phrase registered for the status, none outside 100..=999.
#[verifier::external_body]
pub(crate) fn canonical_reason(status: u16) -> (r: Option<String>)
    ensures
        r.deep_view() == reason_of(status),
        !(100 <= status <= 999) ==> r is None,
{
    http::StatusCode::from_u16(status).ok().and_then(|s| s.canonical_reason()).map(|p| p.to_string())
}

/// Relies on `serde_json::to_vec` on a `str`: the quoted JSON string, escaped
/// as `format_escaped_str` does. Writing a string into a `Vec` cannot fail.
#[verifier::external_body]
pub(crate) fn json_quote(s: &str) -> (r: Vec<u8>)
    ensures
        r@ == json_string(s@),
{
    serde_json::to_vec(s).unwrap_or_default()
}

/// Spaces replaced by underscores.
pub open spec fn snake(s: Seq<char>) -> Seq<char> {
    s.map_values(|c: char| if c == ' ' { '_' } else { c })
}

/// The reason phrase, or the given fallback when the status has none.
pub open spec fn reason_or(status: u16, fallback: Seq<char>) -> Seq<char> {
    match reason_of(status) {
        Some(p) => p,
        None => fallback,
    }
}

/// The canonical error code of a status: its reason phrase (`ERROR` when it
/// has none) in upper case with spaces turned into underscores.
pub open spec fn error_code_of(status: u16) -> Seq<char> {
    snake(upper_of(reason_or(status, "ERROR"@)))
}

/// The error code for an upper-cased reason phrase: spaces become
/// underscores, nothing else changes.
pub fn code_from_upper(upper: &str) -> (r: String)
    ensures
        r@ == snake(upper@),
{
    let n = upper.unicode_len();
    let mut out = String::new();
    let mut i: usize = 0;
    while i < n
        invariant
            n == upper@.len(),
            i <= n,
            out@ == snake(upper@.subrange(0, i as int)),
        decreases n - i,
    {
        let c = upper.get_char(i);
        if c == ' ' {
            push_char(&mut out, '_');
        } else {
            push_char(&mut out, c);
        }
        assert(upper@.subrange(0, i + 1) == upper@.subrange(0, i as int).push(c));
        assert(snake(upper@.subrange(0, i + 1)) == snake(upper@.subrange(0, i as int)).push(
            if c == ' ' { '_' } else { c },
        ));
        i = i + 1;
    }
    assert(upper@.subrange(0, n as int) == upper@);
    out
}

/// The canonical error code of a status (404 gives `NOT_FOUND`).
pub fn status_to_error_code(status: u16) -> (r: String)
    ensures
        r@ == error_code_of(status),
{
    let reason = match canonical_reason(status) {
        Some(p) => p,
        None => "ERROR".to_owned(),
    };
    let upper = uppercase(reason.as_str());
    code_from_upper(upper.as_str())
}

/// The reason phrase of a status, or `fallback` when it has none.
pub fn reason_phrase_or(status: u16, fallback: &str) -> (r: String)
    ensures
        r@ == reason_or(status, fallback@),
{
    match canonical_reason(status) {
        Some(p) => p,
        None => fallback.to_owned(),
    }
}

/// The envelope bytes around two JSON string literals.
pub open spec fn envelope_of(code_json: Seq<u8>, message_json: Seq<u8>) -> Seq<u8> {
    encode_utf8("{\"code\":"@) + code_json + encode_utf8(",\"message\":"@) + message_json
        + encode_utf8("}"@)
}

/// The envelope `{"code":<code>,"message":<message>}` for a code and a
/// message, each as a JSON string literal.
pub fn envelope_from_json(code_json: &[u8], message_json: &[u8]) -> (r: Vec<u8>)
    ensures
        r@ == envelope_of(code_json@, message_json@),
{
    let mut out: Vec<u8> = Vec::new();
    out.extend_from_slice("{\"code\":".as_bytes());
    out.extend_from_slice(code_json);
    out.extend_from_slice(",\"message\":".as_bytes());
    out.extend_from_slice(message_json);
    out.extend_from_slice("}".as_bytes());
    out
}

/// The standard JSON error body.
#[derive(Clone, Debug)]
pub struct ErrorResponse {
    pub code: String,
    pub message: String,
}

impl ErrorResponse {
    pub fn new(code: &str, message: &str) -> (r: ErrorResponse)
        ensures
            r.code@ == code@,
            r.message@ == message@,
    {
        ErrorResponse { code: code.to_owned(), message: message.to_owned() }
    }

    /// An error body whose code is the canonical code of `status`.
    pub fn from_status(status: u16, message: &str) -> (r: ErrorResponse)
        ensures
            r.code@ == error_code_of(status),
            r.message@ == message@,
    {
        ErrorResponse { code: status_to_error_code(status), message: message.to_owned() }
    }

    /// The serialized body: `{"code":...,"message":...}`.
    pub fn to_json(&self) -> (r: Vec<u8>)
        ensures
            r@ == envelope_of(json_string(self.code@), json_string(self.message@)),
    {
        let c = json_quote(self.code.as_str());
        let m = json_quote(self.message.as_str());
        envelope_from_json(c.as_slice(), m.as_slice())
    }

    /// A response with this body, `status`, and a JSON content type.
    pub fn into_response(&self, status: u16) -> (r: Response)
        ensures
            r.status == status,
            r.headers.deep_view() == json_headers(),
            r.body@ == envelope_of(json_string(self.code@), json_string(self.message@)),
    {
        let body = self.to_json();
        let mut headers: Vec<(String, String)> = Vec::new();
        headers.push(("content-type".to_owned(), "application/json".to_owned()));
        assert(headers.deep_view() == json_headers());
        Response { status, headers, body }
    }
}

/// The header list of a response built from an error body.
pub open spec fn json_headers() -> Seq<(Seq<char>, Seq<char>)> {
    seq![("content-type"@, "application/json"@)]
}

/// Errors that know their status and message, for handlers that answer with
/// the standard error body.
pub trait HttpError {
    fn status_code(&self) -> u16;

    fn message(&self) -> String;

    /// The canonical code of the error's status.
    fn error_code(&self) -> (r: String)
        ensures
            exists|status: u16| r@ == error_code_of(status),
    {
        status_to_error_code(self.status_code())
    }

    /// The error as a response with the standard JSON body: the canonical
    /// code of its status, and its message.
    fn into_http_response(&self) -> (r: Response)
        ensures
            r.headers.deep_view() == json_headers(),
            exists|m: Seq<char>| r.body@ == envelope_of(json_string(error_code_of(r.status)), json_string(m)),
    {
        let status = self.status_code();
        let body = ErrorResponse { code: status_to_error_code(status), message: self.message() };
        body.into_response(status)
    }
}

} // verus!
