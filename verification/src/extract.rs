//! Reading the trace id back from a request's per-call context, and the fixed
//! server-fault response for a pipeline that never attached one.

use vstd::prelude::*;

use crate::headers::Headers;
use crate::layer::{TracedRequest, TracedResponse};
use crate::{MakeTraceId, TraceId};

verus! {

/// The fixed diagnostic body for extraction from a request that carries no
/// trace id: a misconfigured pipeline, surfaced as a server fault.
pub open spec fn missing_trace_id_text() -> Seq<char> {
    "Unable to extract TraceId: Missing TraceId extension."@
}

/// Why reading a trace id back from a request can fail.
pub enum TraceIdRejection {
    /// No middleware for this identifier type ran upstream of the reader.
    MissingTraceId,
}

/// What `TraceIdRejection::into_response` guarantees: an internal-server-error
/// status carrying the fixed diagnostic text and no headers.
pub open spec fn rejection_response_post(r: TracedResponse) -> bool {
    &&& r.status == 500
    &&& r.body@ == missing_trace_id_text()
    &&& forall|n: Seq<char>| #[trigger] r.headers.get_spec(n) is None
}

impl TraceIdRejection {
    /// The fixed-text server-fault response for this rejection.
    pub fn into_response(self) -> (r: TracedResponse)
        ensures
            rejection_response_post(r),
    {
        TracedResponse {
            status: 500,
            headers: Headers::new(),
            body: "Unable to extract TraceId: Missing TraceId extension.".to_owned(),
        }
    }
}

/// What `TraceId::from_request_parts` guarantees: with no context entry for
/// `T`, the missing-trace-id rejection; with one, a copy of the stored trace
/// id, rendering to the same string.
pub open spec fn extract_post<T: MakeTraceId>(
    req: TracedRequest<T>,
    r: Result<TraceId<T>, TraceIdRejection>,
) -> bool {
    &&& req.trace_id is None ==> r == Err::<TraceId<T>, TraceIdRejection>(
        TraceIdRejection::MissingTraceId,
    )
    &&& req.trace_id matches Some(t) ==> (r matches Ok(got) && got.id.id_view()
        == t.id.id_view())
}

impl<T: MakeTraceId> TraceId<T> {
    /// Read the context entry for `T` back from a request: a copy of the
    /// stored trace id, or the missing-trace-id rejection when no middleware
    /// for `T` ran upstream.
    pub fn from_request_parts(parts: &TracedRequest<T>) -> (r: Result<Self, TraceIdRejection>)
        ensures
            extract_post(*parts, r),
    {
        match &parts.trace_id {
            None => Err(TraceIdRejection::MissingTraceId),
            Some(trace_id) => Ok(trace_id.clone_trace()),
        }
    }
}

/// Law: extraction from a request no middleware prepared fails with the
/// missing-trace-id rejection, and that rejection's response is the fixed
/// server-fault text.
pub proof fn lemma_missing_trace_id_is_server_fault<T: MakeTraceId>(
    req: TracedRequest<T>,
    x: Result<TraceId<T>, TraceIdRejection>,
    resp: TracedResponse,
)
    requires
        req.trace_id is None,
        extract_post(req, x),
        rejection_response_post(resp),
    ensures
        x == Err::<TraceId<T>, TraceIdRejection>(TraceIdRejection::MissingTraceId),
        resp.status == 500,
        resp.body@ == missing_trace_id_text(),
{
}

} // verus!
