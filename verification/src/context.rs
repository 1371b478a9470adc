//! Mapping request identities and trace headers to apcore contexts.
use std::collections::HashMap;
use vstd::prelude::*;

use crate::errors::AxumApcoreError;
use crate::text::{string_of, string_views};

verus! {

#[verifier::external_type_specification]
#[verifier::external_body]
pub struct ExIdentity(apcore::Identity);

#[verifier::external_type_specification]
#[verifier::external_body]
#[verifier::reject_recursive_types(T)]
pub struct ExContext<T>(apcore::Context<T>);

/// Identity information that authentication middleware stores in a
/// request's extensions.
#[derive(Debug)]
pub struct RequestIdentity {
    pub id: String,
    pub identity_type: String,
    pub roles: Vec<String>,
    pub attrs: HashMap<String, serde_json::Value>,
}

/// The identity type used when none is given.
pub fn default_identity_type() -> (r: String)
    ensures
        r@ == "user"@,
{
    string_of("user")
}

/// `ri` is the anonymous identity.
pub open spec fn is_anonymous(ri: RequestIdentity) -> bool {
    &&& ri.id@ == "anonymous"@
    &&& ri.identity_type@ == "anonymous"@
    &&& ri.roles@.len() == 0
    &&& ri.attrs@.len() == 0
}

/// The identity of a caller that presented none.
pub fn anonymous_request_identity() -> (ri: RequestIdentity)
    ensures
        is_anonymous(ri),
{
    RequestIdentity {
        id: string_of("anonymous"),
        identity_type: string_of("anonymous"),
        roles: Vec::new(),
        attrs: HashMap::new(),
    }
}

/// The apcore identity with the given fields (`Identity::new`).
pub uninterp spec fn identity_value(
    id: Seq<char>,
    identity_type: Seq<char>,
    roles: Seq<Seq<char>>,
    attrs: Map<String, serde_json::Value>,
) -> apcore::Identity;

impl RequestIdentity {
    /// The apcore identity holding these fields (`apcore::Identity::new`).
    #[verifier::external_body]
    pub fn into_identity(self) -> (r: apcore::Identity)
        ensures
            r == identity_value(self.id@, self.identity_type@, string_views(self.roles@), self.attrs@),
    {
        apcore::Identity::new(self.id, self.identity_type, self.roles, self.attrs)
    }
}

/// The apcore identity of a caller that presented none.
pub fn anonymous_identity() -> (r: apcore::Identity)
    ensures
        r == identity_value("anonymous"@, "anonymous"@, Seq::empty(), Map::empty()),
{
    let ri = anonymous_request_identity();
    assert(string_views(ri.roles@) =~= Seq::empty());
    assert(ri.attrs@ =~= Map::empty());
    ri.into_identity()
}

/// The parts of a W3C `traceparent` header: version, trace id, parent id
/// and trace flags.
#[derive(Debug)]
pub struct TraceParentParts {
    pub version: u8,
    pub trace_id: String,
    pub parent_id: String,
    pub trace_flags: u8,
}

/// The plain value of trace-parent parts.
pub open spec fn parts_view(p: TraceParentParts) -> (u8, Seq<char>, Seq<char>, u8) {
    (p.version, p.trace_id@, p.parent_id@, p.trace_flags)
}

/// The plain value of optional trace-parent parts.
pub open spec fn opt_parts_view(p: Option<TraceParentParts>) -> Option<(u8, Seq<char>, Seq<char>, u8)> {
    match p {
        Some(x) => Some(parts_view(x)),
        None => None,
    }
}

/// A lower-case hexadecimal digit.
pub open spec fn is_lower_hex(c: char) -> bool {
    ('0' <= c && c <= '9') || ('a' <= c && c <= 'f')
}

/// Only lower-case hexadecimal digits.
pub open spec fn all_lower_hex(s: Seq<char>) -> bool {
    forall|i: int| 0 <= i < s.len() ==> is_lower_hex(#[trigger] s[i])
}

/// Only zeros.
pub open spec fn all_zeros(s: Seq<char>) -> bool {
    forall|i: int| 0 <= i < s.len() ==> #[trigger] s[i] == '0'
}

/// The value of a lower-case hexadecimal digit.
pub open spec fn hex_value(c: char) -> int {
    if '0' <= c && c <= '9' {
        (c as u32) - ('0' as u32)
    } else {
        (c as u32) - ('a' as u32) + 10
    }
}

/// The byte that two lower-case hexadecimal digits at `i` spell.
pub open spec fn hex_byte(h: Seq<char>, i: int) -> int {
    hex_value(h[i]) * 16 + hex_value(h[i + 1])
}

/// The parts that `TraceParent::parse` reads from a header value, or
/// `None` where it refuses it. It accepts exactly
/// `vv-<32 hex>-<16 hex>-ff`-shaped values of lower-case hexadecimal digits
/// (version, trace id, parent id, flags), except version `ff` and an
/// all-zero trace id or parent id.
pub open spec fn traceparent_of(h: Seq<char>) -> Option<(u8, Seq<char>, Seq<char>, u8)> {
    let trace_id = h.subrange(3, 35);
    let parent_id = h.subrange(36, 52);
    if h.len() == 55 && h[2] == '-' && h[35] == '-' && h[52] == '-' && all_lower_hex(h.subrange(0, 2))
        && all_lower_hex(trace_id) && all_lower_hex(parent_id) && all_lower_hex(h.subrange(53, 55))
        && hex_byte(h, 0) != 255 && !all_zeros(trace_id) && !all_zeros(parent_id) {
        Some((hex_byte(h, 0) as u8, trace_id, parent_id, hex_byte(h, 53) as u8))
    } else {
        None
    }
}

/// Parses a `traceparent` header value (`TraceParent::parse`) into its
/// parts; `None` when it is malformed.
#[verifier::external_body]
fn parse_traceparent(header: &str) -> (r: Option<TraceParentParts>)
    ensures
        opt_parts_view(r) == traceparent_of(header@),
{
    match apcore::trace_context::TraceParent::parse(header) {
        Ok(p) => Some(
            TraceParentParts {
                version: p.version,
                trace_id: p.trace_id,
                parent_id: p.parent_id,
                trace_flags: p.trace_flags,
            },
        ),
        Err(_) => None,
    }
}

/// The identity a context carries (its `identity` field).
pub uninterp spec fn context_identity(c: apcore::Context<serde_json::Value>) -> Option<apcore::Identity>;

/// The trace id a context carries (its `trace_id` field).
pub uninterp spec fn context_trace_id(c: apcore::Context<serde_json::Value>) -> Seq<char>;

/// Thirty-two lower-case hexadecimal digits.
pub open spec fn lower_hex32(t: Seq<char>) -> bool {
    t.len() == 32 && forall|i: int|
        0 <= i < 32 ==> ('0' <= #[trigger] t[i] && t[i] <= '9') || ('a' <= t[i] && t[i] <= 'f')
}

/// A trace id that a context takes over from its trace parent: 32
/// lower-case hexadecimal digits, neither all `0` nor all `f`.
pub open spec fn trace_id_accepted(t: Seq<char>) -> bool {
    &&& lower_hex32(t)
    &&& !(forall|i: int| 0 <= i < 32 ==> #[trigger] t[i] == '0')
    &&& !(forall|i: int| 0 <= i < 32 ==> #[trigger] t[i] == 'f')
}

/// What the trace id of a context built with trace parent `tp` is: the
/// parent's trace id when it is accepted, else a fresh one; either way 32
/// lower-case hexadecimal digits.
pub open spec fn trace_id_from(tp: Option<(u8, Seq<char>, Seq<char>, u8)>, t: Seq<char>) -> bool {
    &&& lower_hex32(t)
    &&& match tp {
        Some(p) => trace_id_accepted(p.1) ==> t == p.1,
        None => true,
    }
}

/// A context for the identity, inheriting the trace parent when there is
/// one (`Context::builder`, then `identity`, `trace_parent`, `build`): it
/// carries the identity, and the parent's trace id when `build` accepts it;
/// otherwise `build` generates a trace id (a simple-form UUID v4), which is
/// left open.
#[verifier::external_body]
fn build_context(
    identity: apcore::Identity,
    trace_parent: Option<TraceParentParts>,
) -> (r: apcore::Context<serde_json::Value>)
    ensures
        context_identity(r) == Some(identity),
        trace_id_from(opt_parts_view(trace_parent), context_trace_id(r)),
{
    let tp = trace_parent.map(|p| apcore::trace_context::TraceParent {
        version: p.version,
        trace_id: p.trace_id,
        parent_id: p.parent_id,
        trace_flags: p.trace_flags,
        tracestate: Vec::new(),
    });
    apcore::Context::<serde_json::Value>::builder().identity(Some(identity)).trace_parent(tp).build()
}

/// Creates apcore contexts from what a request carries.
pub struct AxumContextFactory;

impl AxumContextFactory {
    /// The apcore identity of a request: the identity it carries, else the
    /// anonymous one.
    pub fn extract_identity(&self, identity: Option<RequestIdentity>) -> (r: apcore::Identity)
        ensures
            match identity {
                Some(ri) => r == identity_value(
                    ri.id@,
                    ri.identity_type@,
                    string_views(ri.roles@),
                    ri.attrs@,
                ),
                None => r == identity_value("anonymous"@, "anonymous"@, Seq::empty(), Map::empty()),
            },
    {
        match identity {
            Some(ri) => ri.into_identity(),
            None => anonymous_identity(),
        }
    }

    /// The trace parent of a request: the parts of its `traceparent` header
    /// value, when there is one and it is well formed.
    pub fn extract_trace_context(&self, traceparent: Option<String>) -> (r: Option<TraceParentParts>)
        ensures
            opt_parts_view(r) == match traceparent {
                Some(h) => traceparent_of(h@),
                None => None,
            },
    {
        match traceparent {
            Some(h) => parse_traceparent(h.as_str()),
            None => None,
        }
    }

    /// The context of a request that carries identity `identity` (if any)
    /// and `traceparent` header value `traceparent` (if any): it carries the
    /// identity, or the anonymous one, and takes its trace id from the trace
    /// parent when the header is well formed and its trace id is accepted.
    /// This never fails.
    pub fn create_from_parts(
        &self,
        identity: Option<RequestIdentity>,
        traceparent: Option<String>,
    ) -> (r: Result<apcore::Context<serde_json::Value>, AxumApcoreError>)
        ensures
            r matches Ok(c) && {
                &&& context_identity(c) == Some(
                    match identity {
                        Some(ri) => identity_value(
                            ri.id@,
                            ri.identity_type@,
                            string_views(ri.roles@),
                            ri.attrs@,
                        ),
                        None => identity_value("anonymous"@, "anonymous"@, Seq::empty(), Map::empty()),
                    },
                )
                &&& trace_id_from(
                    match traceparent {
                        Some(h) => traceparent_of(h@),
                        None => None,
                    },
                    context_trace_id(c),
                )
            },
    {
        let id = self.extract_identity(identity);
        let trace_parent = self.extract_trace_context(traceparent);
        Ok(build_context(id, trace_parent))
    }
}

} // verus!
