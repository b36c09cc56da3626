//! Trace normalization helpers.
use vstd::prelude::*;
use crate::numparse::{parse_i64, parsed_i64};
use crate::evp::endpoint::opt_view;

verus! {

/// Metric key that older tracers use for the sampling priority.
pub const TAG_SAMPLING_PRIORITY: &'static str = "_sampling_priority_v1";
/// Meta key that older tracers use for the trace origin.
pub const TAG_ORIGIN: &'static str = "_dd.origin";

/// Sampling priorities a trace chunk can carry.
#[derive(Debug, PartialEq, Eq, Structural)]
pub enum SamplerPriority {
    AutoDrop,
    AutoKeep,
    UserKeep,
    Unset,
}

impl SamplerPriority {
    /// The wire value of the priority.
    pub open spec fn spec_value(&self) -> i32 {
        match self {
            SamplerPriority::AutoDrop => 0,
            SamplerPriority::AutoKeep => 1,
            SamplerPriority::UserKeep => 2,
            SamplerPriority::Unset => -128i32,
        }
    }

    /// The wire value of the priority (`Unset` is `i8::MIN`).
    pub fn value(&self) -> (res: i32)
        ensures
            res == self.spec_value(),
    {
        match self {
            SamplerPriority::AutoDrop => 0,
            SamplerPriority::AutoKeep => 1,
            SamplerPriority::UserKeep => 2,
            SamplerPriority::Unset => -128,
        }
    }
}

/// An HTTP status code is valid when it parses as an integer in `100..600`.
pub open spec fn valid_status_code(sc: Seq<char>) -> bool {
    match parsed_i64(sc) {
        Some(code) => 100 <= code < 600,
        None => false,
    }
}

/// Whether `sc` is a valid HTTP status code.
pub fn is_valid_status_code(sc: &str) -> (res: bool)
    ensures
        res == valid_status_code(sc@),
{
    match parse_i64(sc) {
        Some(code) => 100 <= code && code < 600,
        None => false,
    }
}

/// What chunk normalization reads of one span: the sampling priority that an
/// older tracer left under `TAG_SAMPLING_PRIORITY` in its metrics, as the
/// integer a chunk stores, and the origin it left under `TAG_ORIGIN` in its
/// meta.
#[derive(Debug)]
pub struct ChunkSpan {
    pub sampling_priority: Option<i32>,
    pub origin: Option<String>,
}

/// The view of a [`ChunkSpan`].
pub struct ChunkSpanView {
    pub sampling_priority: Option<i32>,
    pub origin: Option<Seq<char>>,
}

impl View for ChunkSpan {
    type V = ChunkSpanView;

    open spec fn view(&self) -> ChunkSpanView {
        ChunkSpanView { sampling_priority: self.sampling_priority, origin: opt_view(self.origin) }
    }
}

/// A trace chunk as normalization sees it.
#[derive(Debug)]
pub struct TraceChunk {
    pub priority: i32,
    pub origin: String,
    pub spans: Vec<ChunkSpan>,
}

/// The view of a [`TraceChunk`].
pub struct TraceChunkView {
    pub priority: i32,
    pub origin: Seq<char>,
    pub spans: Seq<ChunkSpanView>,
}

impl View for TraceChunk {
    type V = TraceChunkView;

    open spec fn view(&self) -> TraceChunkView {
        TraceChunkView {
            priority: self.priority,
            origin: self.origin@,
            spans: self.spans@.map_values(|s: ChunkSpan| s@),
        }
    }
}

/// Why a trace or a chunk could not be normalized.
#[derive(Debug, Clone, Copy, PartialEq, Eq, Structural)]
pub enum NormalizeError {
    /// The root span index is not that of a span of the chunk.
    RootSpanOutOfRange,
    /// The trace has no span.
    TraceEmpty,
    /// A span belongs to another trace than the first span.
    ForeignSpan,
    /// A span's trace id is zero.
    TraceIdZero,
    /// A span's span id is zero.
    SpanIdZero,
}

/// The text of a normalization error.
pub open spec fn normalize_error_text(e: NormalizeError) -> Seq<char> {
    match e {
        NormalizeError::RootSpanOutOfRange => "Normalize Chunk Error: root_span_index > length of trace chunk spans"@,
        NormalizeError::TraceEmpty => "Normalize Trace Error: Trace is empty"@,
        NormalizeError::ForeignSpan => "Normalize Trace Error: Trace has foreign span"@,
        NormalizeError::TraceIdZero => "TraceID is zero (reason:trace_id_zero)"@,
        NormalizeError::SpanIdZero => "SpanID is zero (reason:span_id_zero)"@,
    }
}

impl NormalizeError {
    /// The error's text.
    pub fn message(&self) -> (res: String)
        ensures
            res@ == normalize_error_text(*self),
    {
        match self {
            NormalizeError::RootSpanOutOfRange => String::from_str(
                "Normalize Chunk Error: root_span_index > length of trace chunk spans",
            ),
            NormalizeError::TraceEmpty => String::from_str("Normalize Trace Error: Trace is empty"),
            NormalizeError::ForeignSpan => String::from_str("Normalize Trace Error: Trace has foreign span"),
            NormalizeError::TraceIdZero => String::from_str("TraceID is zero (reason:trace_id_zero)"),
            NormalizeError::SpanIdZero => String::from_str("SpanID is zero (reason:span_id_zero)"),
        }
    }
}

/// The sampling priority of the first span, from index `i` on, that carries one.
pub open spec fn first_priority_from(spans: Seq<ChunkSpanView>, i: int) -> Option<i32>
    decreases spans.len() - i,
{
    if 0 <= i < spans.len() {
        match spans[i].sampling_priority {
            Some(p) => Some(p),
            None => first_priority_from(spans, i + 1),
        }
    } else {
        None
    }
}

/// The priority a chunk carries after normalization: an unset priority is
/// taken from the root span, else from the first span that has one.
pub open spec fn normalized_priority(c: TraceChunkView, root: int) -> i32 {
    if c.priority == SamplerPriority::Unset.spec_value() {
        match c.spans[root].sampling_priority {
            Some(p) => p,
            None => match first_priority_from(c.spans, 0) {
                Some(p) => p,
                None => c.priority,
            },
        }
    } else {
        c.priority
    }
}

/// The origin a chunk carries after normalization: an empty origin is taken
/// from the root span when it has one.
pub open spec fn normalized_origin(c: TraceChunkView, root: int) -> Seq<char> {
    if c.origin.len() == 0 {
        match c.spans[root].origin {
            Some(o) => o,
            None => c.origin,
        }
    } else {
        c.origin
    }
}

/// A chunk after normalization around the root span at `root`.
pub open spec fn normalized_chunk(c: TraceChunkView, root: int) -> TraceChunkView {
    TraceChunkView {
        priority: normalized_priority(c, root),
        origin: normalized_origin(c, root),
        spans: c.spans,
    }
}

/// Normalizing a chunk a second time changes nothing.
pub proof fn lemma_normalize_chunk_idempotent(c: TraceChunkView, root: int)
    requires
        0 <= root < c.spans.len(),
    ensures
        normalized_chunk(normalized_chunk(c, root), root) == normalized_chunk(c, root),
{
}

/// The first span, from index `start` on, that carries a sampling priority.
fn find_priority(spans: &Vec<ChunkSpan>, start: usize) -> (res: Option<i32>)
    requires
        start <= spans.len(),
    ensures
        res == first_priority_from(spans@.map_values(|s: ChunkSpan| s@), start as int),
    decreases spans.len() - start,
{
    if start == spans.len() {
        None
    } else {
        match spans[start].sampling_priority {
            Some(p) => Some(p),
            None => find_priority(spans, start + 1),
        }
    }
}

/// Fills in what an older tracer left on the root span of `chunk`: an unset
/// priority (from the root span, else from the first span that has one) and
/// an empty origin. Fails, leaving the chunk as it was, when
/// `root_span_index` is not that of a span of the chunk.
pub fn normalize_chunk(chunk: &mut TraceChunk, root_span_index: usize) -> (res: Result<(), NormalizeError>)
    ensures
        match res {
            Ok(()) => {
                &&& root_span_index < old(chunk).spans.len()
                &&& final(chunk)@.priority == normalized_priority(old(chunk)@, root_span_index as int)
                &&& final(chunk)@.origin == normalized_origin(old(chunk)@, root_span_index as int)
                &&& final(chunk).spans@ == old(chunk).spans@
                &&& final(chunk)@ == normalized_chunk(old(chunk)@, root_span_index as int)
            },
            Err(e) => {
                &&& e == NormalizeError::RootSpanOutOfRange
                &&& root_span_index >= old(chunk).spans.len()
                &&& *final(chunk) == *old(chunk)
            },
        },
{
    if root_span_index >= chunk.spans.len() {
        return Err(NormalizeError::RootSpanOutOfRange);
    }
    if chunk.priority == SamplerPriority::Unset.value() {
        match chunk.spans[root_span_index].sampling_priority {
            Some(p) => {
                chunk.priority = p;
            },
            None => {
                match find_priority(&chunk.spans, 0) {
                    Some(p) => {
                        chunk.priority = p;
                    },
                    None => {},
                }
            },
        }
    }
    if chunk.origin.as_str().is_empty() {
        match &chunk.spans[root_span_index].origin {
            Some(o) => {
                chunk.origin = o.clone();
            },
            None => {},
        }
    }
    Ok(())
}

/// What trace normalization reads and changes of one span: its ids, and
/// the `http.status_code` entry of its meta, if any.
#[derive(Debug)]
pub struct TraceSpan {
    pub trace_id: u64,
    pub span_id: u64,
    pub http_status_code: Option<String>,
}

/// The view of a [`TraceSpan`].
pub struct TraceSpanView {
    pub trace_id: u64,
    pub span_id: u64,
    pub http_status_code: Option<Seq<char>>,
}

impl View for TraceSpan {
    type V = TraceSpanView;

    open spec fn view(&self) -> TraceSpanView {
        TraceSpanView {
            trace_id: self.trace_id,
            span_id: self.span_id,
            http_status_code: opt_view(self.http_status_code),
        }
    }
}

/// What is wrong with a span of a trace whose first span has trace id
/// `first`, checked in this order: it belongs to another trace, its trace id
/// is zero, its span id is zero.
pub open spec fn span_problem(s: TraceSpanView, first: u64) -> Option<NormalizeError> {
    if s.trace_id != first {
        Some(NormalizeError::ForeignSpan)
    } else if s.trace_id == 0 {
        Some(NormalizeError::TraceIdZero)
    } else if s.span_id == 0 {
        Some(NormalizeError::SpanIdZero)
    } else {
        None
    }
}

/// A span after normalization: an invalid HTTP status code is dropped.
pub open spec fn normalized_span(s: TraceSpanView) -> TraceSpanView {
    TraceSpanView {
        http_status_code: match s.http_status_code {
            Some(c) => if valid_status_code(c) {
                Some(c)
            } else {
                None
            },
            None => None,
        },
        ..s
    }
}

/// The index of the first span, from `i` on, that has a problem; the
/// number of spans when none has.
pub open spec fn first_bad_span(spans: Seq<TraceSpanView>, first: u64, i: int) -> int
    decreases spans.len() - i,
{
    if i < 0 || i >= spans.len() {
        spans.len() as int
    } else if span_problem(spans[i], first) is Some {
        i
    } else {
        first_bad_span(spans, first, i + 1)
    }
}

/// The views of a sequence of spans.
pub open spec fn span_views(spans: Seq<TraceSpan>) -> Seq<TraceSpanView> {
    Seq::new(spans.len(), |i: int| spans[i]@)
}

/// Normalizes a trace span by span, in order: it fails on an empty trace,
/// and on the first span that belongs to another trace than the first span
/// or has a zero trace or span id (the spans before it are normalized, it
/// and those after it are left alone); a span drops its HTTP status code
/// when it is not one. The other field rules of span normalization
/// (service, name, resource, parent id, timing, type, env tag) are not
/// applied here.
pub fn normalize_trace(trace: &mut Vec<TraceSpan>) -> (res: Result<(), NormalizeError>)
    ensures
        final(trace)@.len() == old(trace)@.len(),
        old(trace)@.len() == 0 ==> res == Err::<(), NormalizeError>(NormalizeError::TraceEmpty),
        old(trace)@.len() > 0 ==> {
            let old_v = span_views(old(trace)@);
            let k = first_bad_span(old_v, old_v[0].trace_id, 0);
            &&& (forall|j: int| 0 <= j < k ==> (#[trigger] final(trace)@[j])@ == normalized_span(old_v[j]))
            &&& (forall|j: int| k <= j < old_v.len() ==> (#[trigger] final(trace)@[j])@ == old_v[j])
            &&& res == (if k == old_v.len() {
                Ok::<(), NormalizeError>(())
            } else {
                Err(span_problem(old_v[k], old_v[0].trace_id)->0)
            })
        },
{
    if trace.len() == 0 {
        return Err(NormalizeError::TraceEmpty);
    }
    let ghost old_v = span_views(trace@);
    let first = trace[0].trace_id;
    let mut i: usize = 0;
    while i < trace.len()
        invariant
            i <= trace@.len(),
            trace@.len() == old_v.len(),
            old_v == span_views(old(trace)@),
            first == old_v[0].trace_id,
            old_v.len() > 0,
            first_bad_span(old_v, first, 0) == first_bad_span(old_v, first, i as int),
            forall|j: int| 0 <= j < i ==> (#[trigger] trace@[j])@ == normalized_span(old_v[j]),
            forall|j: int| i <= j < old_v.len() ==> (#[trigger] trace@[j])@ == old_v[j],
        decreases trace@.len() - i,
    {
        assert(trace@[i as int]@ == old_v[i as int]);
        let t = trace[i].trace_id;
        let sid = trace[i].span_id;
        if t != first {
            return Err(NormalizeError::ForeignSpan);
        }
        if t == 0 {
            return Err(NormalizeError::TraceIdZero);
        }
        if sid == 0 {
            return Err(NormalizeError::SpanIdZero);
        }
        let code = match &trace[i].http_status_code {
            Some(c) => if is_valid_status_code(c.as_str()) {
                Some(c.clone())
            } else {
                None
            },
            None => None,
        };
        let ghost before = trace@;
        trace.set(i, TraceSpan { trace_id: t, span_id: sid, http_status_code: code });
        assert forall|j: int| i < j < old_v.len() implies (#[trigger] trace@[j])@ == old_v[j] by {
            assert(trace@[j] == before[j]);
        }
        assert forall|j: int| 0 <= j < i implies (#[trigger] trace@[j])@ == normalized_span(old_v[j]) by {
            assert(trace@[j] == before[j]);
        }
        i = i + 1;
    }
    Ok(())
}

} // verus!
