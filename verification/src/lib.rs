//! Request-tracing middleware core: mint a correlation identifier for each
//! inbound request, attach it to the request's per-call context, and
//! optionally mirror it into a configurable request/response header.

use vstd::prelude::*;

pub mod extract;
pub mod headers;
pub mod layer;

pub use crate::extract::TraceIdRejection;
pub use crate::headers::Headers;
pub use crate::layer::{SetTraceIdLayer, TraceIdMiddleware, TracedRequest, TracedResponse};

verus! {

/// A lowercase hexadecimal digit, as the canonical UUID rendering uses.
pub open spec fn is_lower_hex_digit(c: char) -> bool {
    ('0' <= c && c <= '9') || ('a' <= c && c <= 'f')
}

/// The canonical textual form of a version-4 UUID: 36 characters, hyphens at
/// positions 8, 13, 18 and 23, lowercase hex digits everywhere else, and the
/// version nibble rendered as '4'.
pub open spec fn uuid_formatted(s: Seq<char>) -> bool {
    &&& s.len() == 36
    &&& s[8] == '-' && s[13] == '-' && s[18] == '-' && s[23] == '-'
    &&& forall|i: int|
        0 <= i < 36 && i != 8 && i != 13 && i != 18 && i != 23 ==> is_lower_hex_digit(#[trigger] s[i])
    &&& s[14] == '4'
}

/// Relies on `uuid::Uuid::new_v4` and `Uuid`'s `Display` impl: a freshly drawn
/// random UUID with the version nibble forced to 4, rendered in lowercase
/// hyphenated form (8-4-4-4-12 hex digits). The value is random, so nothing is
/// promised beyond the shape of the rendering.
#[verifier::external_body]
fn random_uuid_string() -> (r: String)
    ensures
        uuid_formatted(r@),
{
    uuid::Uuid::new_v4().to_string()
}

/// Make a type usable as trace id: a stateless factory for fresh identifier
/// values, each renderable to a human-readable string and copyable so the
/// stored context entry can be handed back to downstream readers.
pub trait MakeTraceId: Sized {
    /// The string this identifier renders to. Implementations that verified
    /// code reasons about override this; the default leaves it unspecified.
    open spec fn id_view(&self) -> Seq<char> {
        arbitrary()
    }

    /// Whether a value is one this strategy mints. Implementations narrow
    /// this to what their `make_trace_id` returns; the default admits any
    /// value.
    open spec fn minted_ok(&self) -> bool {
        true
    }

    /// Produce a fresh identifier. Infallible; no two calls are related.
    fn make_trace_id() -> (r: Self)
        ensures
            r.minted_ok(),
    ;

    /// Render the identifier for headers and logs.
    fn render(&self) -> (r: String)
        ensures
            r@ == self.id_view(),
    ;

    /// An independent copy that renders to the same string.
    fn clone_id(&self) -> (r: Self)
        ensures
            r.id_view() == self.id_view(),
    ;
}

/// The default strategy: a random 128-bit identifier in canonical UUID text form.
impl MakeTraceId for String {
    open spec fn id_view(&self) -> Seq<char> {
        self@
    }

    open spec fn minted_ok(&self) -> bool {
        uuid_formatted(self@)
    }

    fn make_trace_id() -> (r: Self)
        ensures
            uuid_formatted(r@),
    {
        random_uuid_string()
    }

    fn render(&self) -> (r: String) {
        self.clone()
    }

    fn clone_id(&self) -> (r: Self) {
        self.clone()
    }
}

/// The per-request correlation identifier, wrapping one value of the
/// identifier type `T`. Constructed once per request by the middleware and
/// immutable afterwards.
#[derive(Debug)]
pub struct TraceId<T: MakeTraceId> {
    pub id: T,
}

impl<T: MakeTraceId> TraceId<T> {
    /// Mint a trace id from the strategy for `T`: the wrapped identifier is
    /// one the strategy mints — for the default `String` strategy, a
    /// canonically formatted v4 UUID string.
    pub fn new() -> (r: Self)
        ensures
            r.id.minted_ok(),
    {
        TraceId { id: T::make_trace_id() }
    }

    /// The rendered form of the wrapped identifier.
    pub fn render(&self) -> (r: String)
        ensures
            r@ == self.id.id_view(),
    {
        self.id.render()
    }

    /// A copy of this trace id that renders to the same string.
    pub fn clone_trace(&self) -> (r: Self)
        ensures
            r.id.id_view() == self.id.id_view(),
    {
        TraceId { id: self.id.clone_id() }
    }
}

} // verus!
