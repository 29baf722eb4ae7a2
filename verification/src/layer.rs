//! The tracing middleware: per-request minting of a trace id, attachment to
//! the request's per-call context, and optional mirroring into a configured
//! request/response header.
//!
//! The middleware's per-request work splits into two verified steps. The host
//! pipeline calls `prepare_request` before handing the request to the inner
//! stage, runs the inner stage itself, and calls `finish_response` on whatever
//! the inner stage produced.

use core::marker::PhantomData;
use vstd::pervasive::unreached;
use vstd::prelude::*;

use crate::headers::Headers;
use crate::{MakeTraceId, TraceId};

verus! {

/// A character acceptable in an HTTP header value: horizontal tab, or any
/// character other than the remaining ASCII controls and delete.
pub open spec fn is_header_value_char(c: char) -> bool {
    c == '\t' || (c as int >= 32 && c as int != 127)
}

/// Whether a rendered identifier is usable as an HTTP header value.
pub open spec fn header_value_acceptable(s: Seq<char>) -> bool {
    forall|i: int| 0 <= i < s.len() ==> is_header_value_char(#[trigger] s[i])
}

/// A character acceptable in an HTTP header name: the token characters, with
/// uppercase letters taken as well (the parser lowercases them).
pub open spec fn is_header_name_char(c: char) -> bool {
    ||| ('a' <= c && c <= 'z')
    ||| ('A' <= c && c <= 'Z')
    ||| ('0' <= c && c <= '9')
    ||| c == '!' || c == '"' || c == '#' || c == '$' || c == '%' || c == '&' || c == '\''
    ||| c == '*' || c == '+' || c == '-' || c == '.'
    ||| c == '^' || c == '_' || c == '`' || c == '|' || c == '~'
}

/// Whether a string is usable as an HTTP header name: nonempty, within the
/// parser's length cap, made of header name characters.
pub open spec fn header_name_acceptable(s: Seq<char>) -> bool {
    &&& 1 <= s.len() <= 65535
    &&& forall|i: int| 0 <= i < s.len() ==> is_header_name_char(#[trigger] s[i])
}

/// The header value mirrored for a rendered identifier: the rendering itself
/// when it is a valid header value, else the fixed fallback.
pub open spec fn encode_or_fallback(rendered: Seq<char>) -> Seq<char> {
    if header_value_acceptable(rendered) {
        rendered
    } else {
        "unavailable"@
    }
}

/// Relies on `hyper::http::HeaderValue::try_from::<&str>`: it succeeds exactly
/// when every byte is the horizontal tab, or at least 32 and not 127. A
/// character below 128 is that single byte, and every byte in the encoding of
/// a character at or above 128 is itself at least 128, so acceptance is
/// exactly `header_value_acceptable` of the characters.
#[verifier::external_body]
fn header_value_ok(s: &str) -> (r: bool)
    ensures
        r == header_value_acceptable(s@),
{
    hyper::http::HeaderValue::try_from(s).is_ok()
}

/// Relies on `hyper::http::HeaderName::from_str`: it succeeds exactly for
/// nonempty inputs of at most 65535 bytes whose bytes its valid-character
/// table accepts — letters of either case, digits, and the punctuation listed
/// in `is_header_name_char`. Every accepted byte is ASCII, so bytes and
/// characters coincide.
#[verifier::external_body]
fn header_name_ok(s: &str) -> (r: bool)
    ensures
        r == header_name_acceptable(s@),
{
    <hyper::http::HeaderName as core::str::FromStr>::from_str(s).is_ok()
}

/// The view of an inbound request that the middleware touches: the per-call
/// context entry for identifier type `T`, and the request headers. The host
/// pipeline owns the rest of the request and passes it through unchanged.
pub struct TracedRequest<T: MakeTraceId> {
    /// The context entry for `T`: at most one per request, by construction.
    pub trace_id: Option<TraceId<T>>,
    /// The request headers.
    pub headers: Headers,
}

/// The view of a response that the middleware touches.
pub struct TracedResponse {
    /// The response status code.
    pub status: u16,
    /// The response headers.
    pub headers: Headers,
    /// The response body.
    pub body: String,
}

/// Configuration for installing the tracing middleware: the identifier type
/// `T`, and optionally a header name to mirror the id into.
#[derive(Debug)]
pub struct SetTraceIdLayer<T: MakeTraceId> {
    header_name: Option<String>,
    _phantom: PhantomData<T>,
}

impl<T: MakeTraceId> SetTraceIdLayer<T> {
    /// The configured header name, if any.
    pub closed spec fn header_name_view(&self) -> Option<Seq<char>> {
        match self.header_name {
            Some(n) => Some(n@),
            None => None,
        }
    }

    /// A layer that only attaches the context entry, with no header mirroring.
    pub fn new() -> (r: Self)
        ensures
            r.header_name_view() is None,
    {
        SetTraceIdLayer { header_name: None, _phantom: PhantomData }
    }

    /// Enable header mirroring under `header_name`. The name must be a valid
    /// HTTP header field name. It is stored as given, and the model compares
    /// header names literally, so prefer the lowercase form the HTTP parser
    /// normalizes to.
    pub fn with_header_name(self, header_name: &str) -> (r: Self)
        requires
            header_name_acceptable(header_name@),
        ensures
            r.header_name_view() == Some(header_name@),
    {
        SetTraceIdLayer { header_name: Some(header_name.to_owned()), _phantom: PhantomData }
    }

    /// Like `with_header_name`, but checks the name against the HTTP parser
    /// and declines an invalid one instead of demanding validity of the caller.
    pub fn try_with_header_name(self, header_name: &str) -> (r: Option<Self>)
        ensures
            header_name_acceptable(header_name@) ==> (r matches Some(l)
                && l.header_name_view() == Some(header_name@)),
            !header_name_acceptable(header_name@) ==> r is None,
    {
        if header_name_ok(header_name) {
            Some(self.with_header_name(header_name))
        } else {
            None
        }
    }

    /// The middleware this layer installs: it carries the configuration; the
    /// host pipeline supplies and drives the inner stage itself.
    pub fn layer(&self) -> (r: TraceIdMiddleware<T>)
        ensures
            r.header_name_view() == self.header_name_view(),
    {
        let header_name = match &self.header_name {
            Some(n) => Some(n.clone()),
            None => None,
        };
        TraceIdMiddleware { header_name, _phantom: PhantomData }
    }
}

impl<T: MakeTraceId> Default for SetTraceIdLayer<T> {
    fn default() -> (r: Self)
        ensures
            r.header_name_view() is None,
    {
        SetTraceIdLayer::new()
    }
}

/// The per-request middleware: mints a trace id, attaches it to the request's
/// context, and optionally mirrors it into the configured header of the
/// request and of the response.
pub struct TraceIdMiddleware<T: MakeTraceId> {
    header_name: Option<String>,
    _phantom: PhantomData<T>,
}

impl<T: MakeTraceId> TraceIdMiddleware<T> {
    /// The configured header name, if any.
    pub closed spec fn header_name_view(&self) -> Option<Seq<char>> {
        match self.header_name {
            Some(n) => Some(n@),
            None => None,
        }
    }

    /// What `prepare_request` guarantees: the context entry is set to a value
    /// the strategy for `T` mints, whatever entry was there before; with a
    /// configured header name the request carries the mirrored value under it,
    /// every other header untouched, and the same value is handed back for the
    /// response step; with none, the headers are untouched and nothing is
    /// handed back.
    pub open spec fn prepare_post(
        &self,
        req: TracedRequest<T>,
        r: (TracedRequest<T>, Option<String>),
    ) -> bool {
        &&& (r.0.trace_id matches Some(t) && t.id.minted_ok())
        &&& match self.header_name_view() {
            Some(n) => {
                &&& (r.1 matches Some(v) && v@ == encode_or_fallback(
                    r.0.trace_id.unwrap().id.id_view(),
                ) && r.0.headers.get_spec(n) == Some(v@))
                &&& forall|o: Seq<char>|
                    o != n ==> #[trigger] r.0.headers.get_spec(o) == req.headers.get_spec(o)
            },
            None => r.0.headers == req.headers && r.1 is None,
        }
    }

    /// The steps before the inner stage runs: mint a fresh trace id, attach it
    /// to the request's context (overwriting any earlier entry for `T`), and,
    /// when a header name is configured, write the rendered id — or the
    /// fallback, when the rendering is not a valid header value — into the
    /// request header and hand the written value back for the response step.
    pub fn prepare_request(&self, req: TracedRequest<T>) -> (r: (TracedRequest<T>, Option<String>))
        ensures
            self.prepare_post(req, r),
    {
        let mut request = req;
        let trace_id = TraceId::<T>::new();
        match &self.header_name {
            Some(name) => {
                let rendered = trace_id.render();
                let value: String = if header_value_ok(rendered.as_str()) {
                    rendered
                } else {
                    "unavailable".to_owned()
                };
                request.headers.insert(name.as_str(), value.clone());
                request.trace_id = Some(trace_id);
                (request, Some(value))
            },
            None => {
                request.trace_id = Some(trace_id);
                (request, None)
            },
        }
    }

    /// What `finish_response` guarantees: an inner-stage error passes through
    /// unchanged; a response gets the saved value written under the configured
    /// header name, every other header, the status and the body untouched;
    /// with no name configured the response passes through unchanged.
    pub open spec fn finish_post<E>(
        &self,
        saved: Option<String>,
        result: Result<TracedResponse, E>,
        r: Result<TracedResponse, E>,
    ) -> bool {
        &&& result is Err ==> r == result
        &&& match result {
            Ok(resp) => r matches Ok(out) && match self.header_name_view() {
                Some(n) => {
                    &&& (saved matches Some(v) && out.headers.get_spec(n) == Some(v@))
                    &&& forall|o: Seq<char>|
                        o != n ==> #[trigger] out.headers.get_spec(o) == resp.headers.get_spec(o)
                    &&& out.status == resp.status
                    &&& out.body == resp.body
                },
                None => out == resp,
            },
            Err(_) => true,
        }
    }

    /// The step after the inner stage: pass an error through unchanged; on a
    /// response, write the value saved by `prepare_request` into the
    /// configured header, if one is configured.
    pub fn finish_response<E>(
        &self,
        saved: Option<String>,
        result: Result<TracedResponse, E>,
    ) -> (r: Result<TracedResponse, E>)
        requires
            self.header_name_view() is Some && result is Ok ==> saved is Some,
        ensures
            self.finish_post(saved, result, r),
    {
        match result {
            Err(e) => Err(e),
            Ok(mut resp) => {
                match &self.header_name {
                    Some(name) => {
                        let value: String = match saved {
                            Some(v) => v,
                            None => unreached(),
                        };
                        resp.headers.insert(name.as_str(), value);
                        Ok(resp)
                    },
                    None => Ok(resp),
                }
            },
        }
    }
}

/// Law: when a header name is configured, the request handed to the inner
/// stage and the response returned to the caller carry the same trace-header
/// value — the rendered identifier when it is header-safe, else the fixed
/// fallback.
pub proof fn lemma_header_round_trip<T: MakeTraceId, E>(
    m: TraceIdMiddleware<T>,
    req: TracedRequest<T>,
    prep: (TracedRequest<T>, Option<String>),
    resp: TracedResponse,
    out: Result<TracedResponse, E>,
    n: Seq<char>,
)
    requires
        m.header_name_view() == Some(n),
        m.prepare_post(req, prep),
        m.finish_post(prep.1, Ok(resp), out),
    ensures
        prep.0.trace_id is Some,
        out matches Ok(o) && {
            &&& o.headers.get_spec(n) == prep.0.headers.get_spec(n)
            &&& o.headers.get_spec(n) == Some(
                encode_or_fallback(prep.0.trace_id.unwrap().id.id_view()),
            )
        },
{
}

/// Law: when no header name is configured, neither the request handed to the
/// inner stage nor the response is touched beyond the context entry, which is
/// still set.
pub proof fn lemma_no_header_configured<T: MakeTraceId, E>(
    m: TraceIdMiddleware<T>,
    req: TracedRequest<T>,
    prep: (TracedRequest<T>, Option<String>),
    resp: TracedResponse,
    out: Result<TracedResponse, E>,
)
    requires
        m.header_name_view() is None,
        m.prepare_post(req, prep),
        m.finish_post(prep.1, Ok(resp), out),
    ensures
        prep.0.trace_id is Some,
        prep.0.headers == req.headers,
        out == Ok::<TracedResponse, E>(resp),
{
}

/// Law: a canonically rendered UUID is always an acceptable header value, so
/// the default strategy never falls back.
pub proof fn lemma_uuid_header_safe(s: Seq<char>)
    requires
        crate::uuid_formatted(s),
    ensures
        header_value_acceptable(s),
        encode_or_fallback(s) == s,
{
    assert forall|i: int| 0 <= i < s.len() implies is_header_value_char(#[trigger] s[i]) by {
        if i == 8 || i == 13 || i == 18 || i == 23 {
            assert(s[i] == '-');
        } else {
            assert(crate::is_lower_hex_digit(s[i]));
        }
    }
}

} // verus!
