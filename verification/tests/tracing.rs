//! Tests of the tracing middleware pipeline: context attachment, header
//! mirroring, extraction, and the default identifier strategy.

use hyper_trace_id::{
    Headers, MakeTraceId, SetTraceIdLayer, TraceId, TraceIdRejection, TracedRequest,
    TracedResponse,
};

const MISSING_TRACE_ID_ERROR: &str = "Unable to extract TraceId: Missing TraceId extension.";

struct MockTraceId {
    id: String,
}

impl MakeTraceId for MockTraceId {
    fn make_trace_id() -> Self {
        MockTraceId { id: String::from("mock_id") }
    }

    fn render(&self) -> String {
        self.id.clone()
    }

    fn clone_id(&self) -> Self {
        MockTraceId { id: self.id.clone() }
    }
}

/// An identifier whose rendering is not a valid header value.
struct ControlCharId {
    id: String,
}

impl MakeTraceId for ControlCharId {
    fn make_trace_id() -> Self {
        ControlCharId { id: String::from("bad\nvalue") }
    }

    fn render(&self) -> String {
        self.id.clone()
    }

    fn clone_id(&self) -> Self {
        ControlCharId { id: self.id.clone() }
    }
}

fn empty_request<T: MakeTraceId>() -> TracedRequest<T> {
    TracedRequest { trace_id: None, headers: Headers::new() }
}

fn empty_response() -> TracedResponse {
    TracedResponse { status: 200, headers: Headers::new(), body: String::new() }
}

#[test]
fn trace_id_rejection() {
    let req: TracedRequest<String> = empty_request();
    let rejection = match TraceId::from_request_parts(&req) {
        Err(r) => r,
        Ok(_) => panic!("extraction must fail without a middleware"),
    };
    let response = rejection.into_response();
    assert_eq!(response.status, 500);
    assert_eq!(response.body, MISSING_TRACE_ID_ERROR);
}

#[test]
fn trace_id_string() {
    let mw = SetTraceIdLayer::<String>::new().layer();
    let (req, saved) = mw.prepare_request(empty_request());
    let trace_id = match TraceId::from_request_parts(&req) {
        Ok(t) => t,
        Err(_) => panic!("extraction must succeed after the middleware ran"),
    };
    let body = format!("TraceId={}", trace_id.render());
    let response = TracedResponse { status: 200, headers: Headers::new(), body };
    let out = match mw.finish_response::<()>(saved, Ok(response)) {
        Ok(r) => r,
        Err(_) => panic!("no error was injected"),
    };
    assert_eq!(out.status, 200);
}

#[test]
fn trace_id_extracted() {
    let mw = SetTraceIdLayer::<MockTraceId>::new().layer();
    let (req, saved) = mw.prepare_request(empty_request());
    let trace_id = match TraceId::from_request_parts(&req) {
        Ok(t) => t,
        Err(_) => panic!("extraction must succeed after the middleware ran"),
    };
    let body = format!("TraceId={}", trace_id.render());
    let response = TracedResponse { status: 200, headers: Headers::new(), body };
    let out = match mw.finish_response::<()>(saved, Ok(response)) {
        Ok(r) => r,
        Err(_) => panic!("no error was injected"),
    };
    assert_eq!(out.status, 200);
    let expected_uid = "mock_id";
    assert_eq!(out.body, format!("TraceId={expected_uid}"));
}

#[test]
fn test_extension_not_added() {
    let req: TracedRequest<String> = empty_request();
    assert!(req.trace_id.is_none());
    assert!(matches!(
        TraceId::from_request_parts(&req),
        Err(TraceIdRejection::MissingTraceId)
    ));
}

#[test]
fn test_extension_added() {
    let mw = SetTraceIdLayer::<String>::new().layer();
    let (req, _saved) = mw.prepare_request(empty_request());
    assert!(req.trace_id.is_some());
    assert!(TraceId::from_request_parts(&req).is_ok());
}

#[test]
fn test_header_added() {
    let header_name = "x-trace-id";
    let mw = SetTraceIdLayer::<String>::new().with_header_name(header_name).layer();
    let (req, saved) = mw.prepare_request(empty_request());
    assert!(req.headers.get(header_name).is_some());
    let out = match mw.finish_response::<()>(saved, Ok(empty_response())) {
        Ok(r) => r,
        Err(_) => panic!("no error was injected"),
    };
    assert!(out.headers.get(header_name).is_some());
}

#[test]
fn header_round_trip_identity() {
    let header_name = "x-trace-id";
    let mw = SetTraceIdLayer::<String>::new().with_header_name(header_name).layer();
    let (req, saved) = mw.prepare_request(empty_request());
    let request_value = req.headers.get(header_name).cloned();
    let trace_id = match &req.trace_id {
        Some(t) => t.render(),
        None => panic!("context entry must be present"),
    };
    let out = match mw.finish_response::<()>(saved, Ok(empty_response())) {
        Ok(r) => r,
        Err(_) => panic!("no error was injected"),
    };
    let response_value = out.headers.get(header_name).cloned();
    assert_eq!(request_value.as_deref(), Some(trace_id.as_str()));
    assert_eq!(request_value, response_value);
}

#[test]
fn header_fallback_on_unsafe_value() {
    let header_name = "x-trace-id";
    let mw = SetTraceIdLayer::<ControlCharId>::new().with_header_name(header_name).layer();
    let (req, saved) = mw.prepare_request(empty_request());
    assert_eq!(req.headers.get(header_name).map(String::as_str), Some("unavailable"));
    let out = match mw.finish_response::<()>(saved, Ok(empty_response())) {
        Ok(r) => r,
        Err(_) => panic!("no error was injected"),
    };
    assert_eq!(out.headers.get(header_name).map(String::as_str), Some("unavailable"));
}

#[test]
fn no_header_when_not_configured() {
    let mw = SetTraceIdLayer::<String>::new().layer();
    let (req, saved) = mw.prepare_request(empty_request());
    assert!(req.trace_id.is_some());
    assert!(req.headers.get("x-trace-id").is_none());
    assert!(saved.is_none());
    let out = match mw.finish_response::<()>(saved, Ok(empty_response())) {
        Ok(r) => r,
        Err(_) => panic!("no error was injected"),
    };
    assert!(out.headers.get("x-trace-id").is_none());
}

#[test]
fn default_strategy_success_without_header() {
    let mw = SetTraceIdLayer::<String>::new().layer();
    let (req, saved) = mw.prepare_request(empty_request());
    let trace_id = match TraceId::from_request_parts(&req) {
        Ok(t) => t,
        Err(_) => panic!("extraction must succeed after the middleware ran"),
    };
    assert!(!trace_id.render().is_empty());
    let out = match mw.finish_response::<()>(saved, Ok(empty_response())) {
        Ok(r) => r,
        Err(_) => panic!("no error was injected"),
    };
    assert_eq!(out.status, 200);
    assert!(out.headers.get("x-trace-id").is_none());
}

#[test]
fn mock_id_mirrored_into_header() {
    let header_name = "x-trace-id";
    let mw = SetTraceIdLayer::<MockTraceId>::new().with_header_name(header_name).layer();
    let (req, _saved) = mw.prepare_request(empty_request());
    assert_eq!(req.headers.get(header_name).map(String::as_str), Some("mock_id"));
}

#[test]
fn trace_id_new_uses_strategy() {
    let id = TraceId::<MockTraceId>::new();
    assert_eq!(id.render(), "mock_id");
    let id = TraceId::<String>::new();
    assert_eq!(id.render().len(), 36);
}

#[test]
fn default_trace_ids_differ() {
    let first = String::make_trace_id();
    let second = String::make_trace_id();
    assert_ne!(first, second);
}

#[test]
fn default_trace_id_is_canonical_uuid() {
    let id = String::make_trace_id();
    let chars: Vec<char> = id.chars().collect();
    assert_eq!(chars.len(), 36);
    for (i, c) in chars.iter().enumerate() {
        if i == 8 || i == 13 || i == 18 || i == 23 {
            assert_eq!(*c, '-');
        } else {
            assert!(c.is_ascii_hexdigit() && !c.is_ascii_uppercase());
        }
    }
    assert_eq!(chars[14], '4');
}

#[test]
fn inner_error_passes_through() {
    let mw = SetTraceIdLayer::<String>::new().with_header_name("x-trace-id").layer();
    let (_req, saved) = mw.prepare_request(empty_request());
    let out = mw.finish_response::<&str>(saved, Err("inner failure"));
    assert!(matches!(out, Err("inner failure")));
}

#[test]
fn try_with_header_name_screens_names() {
    assert!(SetTraceIdLayer::<String>::new().try_with_header_name("").is_none());
    assert!(SetTraceIdLayer::<String>::new().try_with_header_name("bad name").is_none());
    assert!(SetTraceIdLayer::<String>::new().try_with_header_name("x-trace-id").is_some());
}

#[test]
fn headers_insert_replaces() {
    let mut headers = Headers::new();
    headers.insert("x-a", String::from("one"));
    headers.insert("x-b", String::from("two"));
    headers.insert("x-a", String::from("three"));
    assert_eq!(headers.get("x-a").map(String::as_str), Some("three"));
    assert_eq!(headers.get("x-b").map(String::as_str), Some("two"));
    assert!(headers.get("x-c").is_none());
}
