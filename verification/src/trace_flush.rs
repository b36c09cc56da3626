//! Trace flushing: the counters of what was sent, and the per-endpoint
//! buffers that decide when payloads are dropped, buffered or flushed.
use vstd::prelude::*;
use std::collections::HashMap;
use crate::assoc::{
    assoc_map, has_key, keys_distinct, lemma_assoc_map_at, lemma_assoc_map_push,
    lemma_assoc_map_remove, lemma_assoc_map_update,
};
use crate::evp::endpoint::{endpoint_eq, Endpoint, EndpointView};

verus! {

broadcast use vstd::std_specs::hash::group_hash_axioms;

/// What one send of buffered traces reported.
#[derive(Debug)]
pub struct SendDataResult {
    pub requests_count: u64,
    /// Responses received, by HTTP status code.
    pub responses_count_per_code: Vec<(u16, u64)>,
    pub errors_timeout: u64,
    pub errors_network: u64,
    pub errors_status_code: u64,
    pub bytes_sent: u64,
    pub chunks_sent: u64,
    pub chunks_dropped: u64,
}

/// Counters of everything the trace flusher sent since they were last
/// collected.
#[derive(Debug)]
pub struct TraceFlusherMetrics {
    pub api_requests: u64,
    pub api_responses_count_per_code: HashMap<u16, u64>,
    pub api_errors_timeout: u64,
    pub api_errors_network: u64,
    pub api_errors_status_code: u64,
    pub bytes_sent: u64,
    pub chunks_sent: u64,
    pub chunks_dropped: u64,
}

/// How many responses with `code` a map of counts holds (none when absent).
pub open spec fn count_of(m: Map<u16, u64>, code: u16) -> int {
    if m.contains_key(code) {
        m[code] as int
    } else {
        0
    }
}

/// The sum of the counts that `pairs` gives for `code`.
pub open spec fn code_total(pairs: Seq<(u16, u64)>, code: u16) -> int
    decreases pairs.len(),
{
    if pairs.len() == 0 {
        0
    } else {
        code_total(pairs.drop_last(), code) + if pairs.last().0 == code {
            pairs.last().1 as int
        } else {
            0
        }
    }
}

/// Whether `code` occurs in `pairs`.
pub open spec fn mentions_code(pairs: Seq<(u16, u64)>, code: u16) -> bool {
    exists|i: int| 0 <= i < pairs.len() && pairs[i].0 == code
}

/// A prefix never totals more than the whole.
proof fn lemma_code_total_prefix(pairs: Seq<(u16, u64)>, n: int, code: u16)
    requires
        0 <= n <= pairs.len(),
    ensures
        0 <= code_total(pairs.take(n), code) <= code_total(pairs, code),
    decreases pairs.len(),
{
    if n == pairs.len() {
        assert(pairs.take(n) =~= pairs);
        lemma_code_total_nonneg(pairs, code);
    } else {
        assert(pairs.drop_last().take(n) =~= pairs.take(n));
        lemma_code_total_prefix(pairs.drop_last(), n, code);
    }
}

/// Totals are never negative.
proof fn lemma_code_total_nonneg(pairs: Seq<(u16, u64)>, code: u16)
    ensures
        code_total(pairs, code) >= 0,
    decreases pairs.len(),
{
    if pairs.len() > 0 {
        lemma_code_total_nonneg(pairs.drop_last(), code);
    }
}

impl Default for TraceFlusherMetrics {
    /// All counters at zero, no response counted.
    fn default() -> (res: Self)
        ensures
            res.api_requests == 0,
            res.api_responses_count_per_code@ == Map::<u16, u64>::empty(),
            res.api_errors_timeout == 0,
            res.api_errors_network == 0,
            res.api_errors_status_code == 0,
            res.bytes_sent == 0,
            res.chunks_sent == 0,
            res.chunks_dropped == 0,
    {
        TraceFlusherMetrics {
            api_requests: 0,
            api_responses_count_per_code: HashMap::new(),
            api_errors_timeout: 0,
            api_errors_network: 0,
            api_errors_status_code: 0,
            bytes_sent: 0,
            chunks_sent: 0,
            chunks_dropped: 0,
        }
    }
}

impl TraceFlusherMetrics {
    /// Adds what one send reported: each counter grows by the result's, and
    /// each status code's count by the result's counts for it.
    pub fn update(&mut self, result: &SendDataResult)
        requires
            old(self).api_requests + result.requests_count <= u64::MAX,
            old(self).api_errors_timeout + result.errors_timeout <= u64::MAX,
            old(self).api_errors_network + result.errors_network <= u64::MAX,
            old(self).api_errors_status_code + result.errors_status_code <= u64::MAX,
            old(self).bytes_sent + result.bytes_sent <= u64::MAX,
            old(self).chunks_sent + result.chunks_sent <= u64::MAX,
            old(self).chunks_dropped + result.chunks_dropped <= u64::MAX,
            forall|code: u16|
                count_of(old(self).api_responses_count_per_code@, code) + code_total(
                    result.responses_count_per_code@,
                    code,
                ) <= u64::MAX,
        ensures
            final(self).api_requests == old(self).api_requests + result.requests_count,
            final(self).api_errors_timeout == old(self).api_errors_timeout + result.errors_timeout,
            final(self).api_errors_network == old(self).api_errors_network + result.errors_network,
            final(self).api_errors_status_code == old(self).api_errors_status_code
                + result.errors_status_code,
            final(self).bytes_sent == old(self).bytes_sent + result.bytes_sent,
            final(self).chunks_sent == old(self).chunks_sent + result.chunks_sent,
            final(self).chunks_dropped == old(self).chunks_dropped + result.chunks_dropped,
            forall|code: u16| #[trigger]
                count_of(final(self).api_responses_count_per_code@, code) == count_of(
                    old(self).api_responses_count_per_code@,
                    code,
                ) + code_total(result.responses_count_per_code@, code),
            forall|code: u16| #[trigger]
                final(self).api_responses_count_per_code@.contains_key(code) <==> old(
                    self,
                ).api_responses_count_per_code@.contains_key(code) || mentions_code(
                    result.responses_count_per_code@,
                    code,
                ),
    {
        self.api_requests = self.api_requests + result.requests_count;
        self.api_errors_timeout = self.api_errors_timeout + result.errors_timeout;
        self.api_errors_network = self.api_errors_network + result.errors_network;
        self.api_errors_status_code = self.api_errors_status_code + result.errors_status_code;
        self.bytes_sent = self.bytes_sent + result.bytes_sent;
        self.chunks_sent = self.chunks_sent + result.chunks_sent;
        self.chunks_dropped = self.chunks_dropped + result.chunks_dropped;

        let pairs = &result.responses_count_per_code;
        let ghost start = self.api_responses_count_per_code@;
        let mut i: usize = 0;
        while i < pairs.len()
            invariant
                i <= pairs@.len(),
                pairs@ == result.responses_count_per_code@,
                self.api_requests == old(self).api_requests + result.requests_count,
                self.api_errors_timeout == old(self).api_errors_timeout + result.errors_timeout,
                self.api_errors_network == old(self).api_errors_network + result.errors_network,
                self.api_errors_status_code == old(self).api_errors_status_code
                    + result.errors_status_code,
                self.bytes_sent == old(self).bytes_sent + result.bytes_sent,
                self.chunks_sent == old(self).chunks_sent + result.chunks_sent,
                self.chunks_dropped == old(self).chunks_dropped + result.chunks_dropped,
                forall|code: u16|
                    count_of(start, code) + code_total(pairs@, code) <= u64::MAX,
                forall|code: u16| #[trigger]
                    count_of(self.api_responses_count_per_code@, code) == count_of(start, code)
                        + code_total(pairs@.take(i as int), code),
                forall|code: u16| #[trigger]
                    self.api_responses_count_per_code@.contains_key(code) <==> start.contains_key(
                        code,
                    ) || mentions_code(pairs@.take(i as int), code),
            decreases pairs@.len() - i,
        {
            let (code, count) = pairs[i];
            let ghost before = self.api_responses_count_per_code@;
            proof {
                assert(pairs@.take(i + 1).drop_last() =~= pairs@.take(i as int));
                lemma_code_total_prefix(pairs@, i + 1, code);
                assert(count_of(before, code) + count <= u64::MAX);
            }
            let current: u64 = match self.api_responses_count_per_code.get(&code) {
                Some(v) => *v,
                None => 0,
            };
            assert(current == count_of(before, code));
            self.api_responses_count_per_code.insert(code, current + count);
            proof {
                let m = self.api_responses_count_per_code@;
                assert forall|c: u16| #[trigger]
                    count_of(m, c) == count_of(start, c) + code_total(pairs@.take(i + 1), c) by {
                    assert(pairs@.take(i + 1).drop_last() =~= pairs@.take(i as int));
                    assert(pairs@.take(i + 1).last() == (code, count));
                    assert(count_of(before, c) == count_of(start, c) + code_total(
                        pairs@.take(i as int),
                        c,
                    ));
                    assert(m == before.insert(code, (current + count) as u64));
                }
                assert forall|c: u16| #[trigger]
                    m.contains_key(c) <==> start.contains_key(c) || mentions_code(
                        pairs@.take(i + 1),
                        c,
                    ) by {
                    let t = pairs@.take(i + 1);
                    if mentions_code(t, c) && c != code {
                        let j = choose|j: int| 0 <= j < t.len() && t[j].0 == c;
                        assert(j < i);
                        assert(pairs@.take(i as int)[j] == t[j]);
                    }
                    if mentions_code(pairs@.take(i as int), c) {
                        let j = choose|j: int| 0 <= j < i && pairs@.take(i as int)[j].0 == c;
                        assert(t[j] == pairs@.take(i as int)[j]);
                    }
                    if c == code {
                        assert(t[i as int].0 == c);
                    }
                }
            }
            i = i + 1;
        }
        proof {
            assert(pairs@.take(pairs@.len() as int) =~= pairs@);
        }
    }
}


/// How often an endpoint's buffer is flushed when nothing forces it.
pub const DEFAULT_FLUSH_INTERVAL_MS: u64 = 5_000;

/// Buffered bytes beyond which an endpoint's buffer is flushed at once.
pub const DEFAULT_MIN_FORCE_FLUSH_SIZE_BYTES: u32 = 1_000_000;

/// The size limits of trace buffering.
#[derive(Debug, Clone, Copy, PartialEq, Eq, Structural)]
pub struct FlushLimits {
    /// Buffered bytes beyond which the buffer is flushed at once.
    pub min_force_flush_size_bytes: u32,
    /// A single payload larger than this is dropped.
    pub min_force_drop_size_bytes: u32,
}

/// The sum of a sequence of sizes.
pub open spec fn total_size(sizes: Seq<usize>) -> int
    decreases sizes.len(),
{
    if sizes.len() == 0 {
        0
    } else {
        total_size(sizes.drop_last()) + sizes.last() as int
    }
}

/// The traces waiting for one endpoint, and whether its flusher runs.
struct EndpointBuffer<P> {
    payloads: Vec<P>,
    sizes: Vec<usize>,
    size: usize,
    flusher_running: bool,
}

/// Spec view of an [`EndpointBuffer`].
pub struct BufferView<P> {
    pub payloads: Seq<P>,
    pub sizes: Seq<usize>,
    pub size: usize,
    pub flusher_running: bool,
}

impl<P> View for EndpointBuffer<P> {
    type V = BufferView<P>;

    closed spec fn view(&self) -> BufferView<P> {
        BufferView {
            payloads: self.payloads@,
            sizes: self.sizes@,
            size: self.size,
            flusher_running: self.flusher_running,
        }
    }
}

/// A buffer's invariant: one size per payload, and the buffered size is
/// their sum.
pub open spec fn buffer_ok<P>(b: BufferView<P>) -> bool {
    b.payloads.len() == b.sizes.len() && b.size == total_size(b.sizes)
}

/// What enqueueing a payload did.
#[derive(Debug, Clone, Copy, PartialEq, Eq, Structural)]
pub enum EnqueueAction {
    /// The payload alone exceeds the drop limit; it was not buffered.
    Dropped,
    /// The payload was buffered. `start_flusher`: no flusher ran for its
    /// endpoint, one must be started; `force_flush`: the buffer now exceeds
    /// the force-flush size and must be flushed at once.
    Buffered { start_flusher: bool, force_flush: bool },
}

/// The buffers of all endpoints that have traces waiting or a flusher
/// running.
pub struct TraceBuffers<P> {
    endpoints: Vec<Endpoint>,
    buffers: Vec<EndpointBuffer<P>>,
}

impl<P> TraceBuffers<P> {
    /// The buffers as pairs of endpoint and buffer.
    pub closed spec fn pairs(&self) -> Seq<(EndpointView, BufferView<P>)> {
        Seq::new(self.endpoints@.len(), |i: int| (self.endpoints@[i]@, self.buffers@[i]@))
    }

    /// The invariant: one buffer per endpoint, no endpoint twice, and every
    /// buffer's size accounts for its payloads.
    pub closed spec fn wf(&self) -> bool {
        &&& self.endpoints@.len() == self.buffers@.len()
        &&& keys_distinct(self.pairs())
        &&& forall|i: int| 0 <= i < self.buffers@.len() ==> buffer_ok(#[trigger] self.buffers@[i]@)
    }
}

impl<P> View for TraceBuffers<P> {
    type V = Map<EndpointView, BufferView<P>>;

    closed spec fn view(&self) -> Map<EndpointView, BufferView<P>> {
        assoc_map(self.pairs())
    }
}

/// The buffer an endpoint has, or an empty one without a flusher.
pub open spec fn buffer_of<P>(m: Map<EndpointView, BufferView<P>>, e: EndpointView) -> BufferView<P> {
    if m.contains_key(e) {
        m[e]
    } else {
        BufferView { payloads: Seq::empty(), sizes: Seq::empty(), size: 0, flusher_running: false }
    }
}

impl<P> TraceBuffers<P> {
    /// No buffers.
    pub fn new() -> (res: Self)
        ensures
            res.wf(),
            res@ == Map::<EndpointView, BufferView<P>>::empty(),
    {
        let res = TraceBuffers { endpoints: Vec::new(), buffers: Vec::new() };
        assert(res@ =~= Map::<EndpointView, BufferView<P>>::empty());
        res
    }

    /// What an endpoint has buffered always adds up: one size per payload,
    /// and the buffered size is their sum.
    pub proof fn lemma_buffers_ok(&self, e: EndpointView)
        requires
            self.wf(),
            self@.contains_key(e),
        ensures
            buffer_ok(self@[e]),
    {
        let i = choose|i: int| 0 <= i < self.pairs().len() && self.pairs()[i].0 == e;
        lemma_assoc_map_at(self.pairs(), i);
        assert(self.pairs()[i].1 == self.buffers@[i]@);
    }

    fn find(&self, endpoint: &Endpoint) -> (res: Option<usize>)
        requires
            self.wf(),
        ensures
            match res {
                Some(i) => i < self.endpoints@.len() && self.pairs()[i as int].0 == endpoint@,
                None => !has_key(self.pairs(), endpoint@),
            },
    {
        let mut i: usize = 0;
        while i < self.endpoints.len()
            invariant
                self.wf(),
                i <= self.endpoints@.len(),
                forall|j: int| 0 <= j < i ==> self.pairs()[j].0 != endpoint@,
            decreases self.endpoints@.len() - i,
        {
            if endpoint_eq(&self.endpoints[i], endpoint) {
                return Some(i);
            }
            i = i + 1;
        }
        None
    }

    /// The buffered size of an endpoint (0 without a buffer).
    pub fn buffered_size(&self, endpoint: &Endpoint) -> (res: usize)
        requires
            self.wf(),
        ensures
            res == buffer_of(self@, endpoint@).size,
    {
        match self.find(endpoint) {
            Some(i) => {
                proof {
                    lemma_assoc_map_at(self.pairs(), i as int);
                }
                self.buffers[i].size
            },
            None => 0,
        }
    }

    /// Replaces the buffer at index `i`.
    fn replace_at(&mut self, i: usize, b: EndpointBuffer<P>)
        requires
            old(self).wf(),
            i < old(self).endpoints@.len(),
            buffer_ok(b@),
        ensures
            final(self).wf(),
            final(self)@ == old(self)@.insert(old(self).pairs()[i as int].0, b@),
    {
        let ghost before = self.pairs();
        let ghost bv = b@;
        self.buffers.remove(i);
        self.buffers.insert(i, b);
        proof {
            assert(self.pairs() =~= before.update(i as int, (before[i as int].0, bv)));
            lemma_assoc_map_update(before, i as int, bv);
        }
    }

    /// A payload of `len` bytes for `endpoint`: dropped when it alone
    /// exceeds the drop limit; otherwise buffered, with a flusher to start
    /// when none runs for the endpoint, and a flush to force when the
    /// buffered size now exceeds the force-flush size.
    pub fn enqueue(&mut self, endpoint: &Endpoint, payload: P, len: usize, limits: FlushLimits) -> (res: EnqueueAction)
        requires
            old(self).wf(),
            buffer_of(old(self)@, endpoint@).size + len <= usize::MAX,
        ensures
            final(self).wf(),
            len > limits.min_force_drop_size_bytes ==> res == EnqueueAction::Dropped && final(self)@
                == old(self)@,
            len <= limits.min_force_drop_size_bytes ==> {
                let b = buffer_of(old(self)@, endpoint@);
                let size = (b.size + len) as usize;
                &&& res == EnqueueAction::Buffered {
                    start_flusher: !b.flusher_running,
                    force_flush: size > limits.min_force_flush_size_bytes,
                }
                &&& final(self)@ == old(self)@.insert(
                    endpoint@,
                    BufferView {
                        payloads: b.payloads.push(payload),
                        sizes: b.sizes.push(len),
                        size: size,
                        flusher_running: true,
                    },
                )
            },
    {
        if len > limits.min_force_drop_size_bytes as usize {
            return EnqueueAction::Dropped;
        }
        let ghost b = buffer_of(self@, endpoint@);
        let ghost nb = BufferView {
            payloads: b.payloads.push(payload),
            sizes: b.sizes.push(len),
            size: (b.size + len) as usize,
            flusher_running: true,
        };
        match self.find(endpoint) {
            Some(i) => {
                proof {
                    lemma_assoc_map_at(self.pairs(), i as int);
                    assert(self.buffers@[i as int]@ == b);
                }
                let mut buffer = self.buffers.remove(i);
                self.buffers.insert(i, EndpointBuffer {
                    payloads: Vec::new(),
                    sizes: Vec::new(),
                    size: 0,
                    flusher_running: false,
                });
                let start_flusher = !buffer.flusher_running;
                buffer.payloads.push(payload);
                buffer.sizes.push(len);
                buffer.size = buffer.size + len;
                buffer.flusher_running = true;
                let force_flush = buffer.size > limits.min_force_flush_size_bytes as usize;
                proof {
                    assert(buffer.sizes@.drop_last() =~= b.sizes);
                    assert(buffer@ == nb);
                }
                let ghost mid = self.pairs();
                proof {
                    assert(keys_distinct(mid)) by {
                        assert forall|a: int, c: int| 0 <= a < mid.len() && 0 <= c < mid.len() && a != c
                            implies mid[a].0 != mid[c].0 by {
                            assert(mid[a].0 == old(self).pairs()[a].0);
                            assert(mid[c].0 == old(self).pairs()[c].0);
                        }
                    }
                    assert(assoc_map(mid) == old(self)@.insert(endpoint@, mid[i as int].1)) by {
                        assert(mid =~= old(self).pairs().update(i as int, (endpoint@, mid[i as int].1)));
                        lemma_assoc_map_update(old(self).pairs(), i as int, mid[i as int].1);
                    }
                }
                self.replace_at(i, buffer);
                EnqueueAction::Buffered { start_flusher, force_flush }
            },
            None => {
                let ghost before = self.pairs();
                let mut payloads: Vec<P> = Vec::new();
                payloads.push(payload);
                let mut sizes: Vec<usize> = Vec::new();
                sizes.push(len);
                let buffer = EndpointBuffer { payloads, sizes, size: len, flusher_running: true };
                proof {
                    assert(sizes@.drop_last() =~= Seq::<usize>::empty());
                    assert(buffer@ == nb);
                }
                self.endpoints.push(endpoint.duplicate());
                self.buffers.push(buffer);
                proof {
                    assert(self.pairs() =~= before.push((endpoint@, nb)));
                    lemma_assoc_map_push(before, endpoint@, nb);
                    assert forall|k: int| 0 <= k < self.buffers@.len() implies buffer_ok(
                        #[trigger] self.buffers@[k]@,
                    ) by {
                        if k < old(self).buffers@.len() {
                            assert(self.buffers@[k] == old(self).buffers@[k]);
                            assert(buffer_ok(old(self).buffers@[k]@));
                        } else {
                            assert(!old(self)@.contains_key(endpoint@));
                            assert(b.sizes =~= Seq::<usize>::empty());
                            assert(nb.sizes.drop_last() =~= Seq::<usize>::empty());
                            assert(total_size(nb.sizes) == total_size(nb.sizes.drop_last()) + len);
                            assert(total_size(Seq::<usize>::empty()) == 0);
                            assert(self.buffers@[k]@ == nb);
                        }
                    }
                }
                let force_flush = len > limits.min_force_flush_size_bytes as usize;
                EnqueueAction::Buffered { start_flusher: true, force_flush }
            },
        }
    }

    /// The flusher of `endpoint` takes what is buffered to send it: the
    /// buffer is left empty, its flusher still running.
    pub fn take_payloads(&mut self, endpoint: &Endpoint) -> (res: Vec<P>)
        requires
            old(self).wf(),
        ensures
            final(self).wf(),
            res@ == buffer_of(old(self)@, endpoint@).payloads,
            old(self)@.contains_key(endpoint@) ==> final(self)@ == old(self)@.insert(
                endpoint@,
                BufferView {
                    payloads: Seq::empty(),
                    sizes: Seq::empty(),
                    size: 0,
                    flusher_running: old(self)@[endpoint@].flusher_running,
                },
            ),
            !old(self)@.contains_key(endpoint@) ==> final(self)@ == old(self)@,
    {
        match self.find(endpoint) {
            Some(i) => {
                proof {
                    lemma_assoc_map_at(self.pairs(), i as int);
                }
                let running = self.buffers[i].flusher_running;
                let mut buffer = self.buffers.remove(i);
                self.buffers.insert(i, EndpointBuffer {
                    payloads: Vec::new(),
                    sizes: Vec::new(),
                    size: 0,
                    flusher_running: running,
                });
                let ghost mid = self.pairs();
                proof {
                    assert(mid =~= old(self).pairs().update(i as int, (endpoint@, mid[i as int].1)));
                    lemma_assoc_map_update(old(self).pairs(), i as int, mid[i as int].1);
                    assert(self.wf()) by {
                        assert forall|k: int| 0 <= k < self.buffers@.len() implies buffer_ok(#[trigger] self.buffers@[k]@) by {
                            if k != i {
                                assert(self.buffers@[k] == old(self).buffers@[k]);
                            } else {
                                assert(self.buffers@[k]@.sizes =~= Seq::<usize>::empty());
                            }
                        }
                    }
                }
                buffer.payloads
            },
            None => Vec::new(),
        }
    }

    /// After a flush of `endpoint`: when its buffer stayed empty the
    /// endpoint is forgotten and its flusher ends (`true`); a flusher whose
    /// endpoint is gone ends too.
    pub fn finish_flush(&mut self, endpoint: &Endpoint) -> (stop: bool)
        requires
            old(self).wf(),
        ensures
            final(self).wf(),
            !old(self)@.contains_key(endpoint@) ==> stop && final(self)@ == old(self)@,
            old(self)@.contains_key(endpoint@) && old(self)@[endpoint@].payloads.len() == 0 ==> stop
                && final(self)@ == old(self)@.remove(endpoint@),
            old(self)@.contains_key(endpoint@) && old(self)@[endpoint@].payloads.len() > 0 ==> !stop
                && final(self)@ == old(self)@,
    {
        match self.find(endpoint) {
            Some(i) => {
                proof {
                    lemma_assoc_map_at(self.pairs(), i as int);
                }
                if self.buffers[i].payloads.len() == 0 {
                    let ghost before = self.pairs();
                    self.endpoints.remove(i);
                    self.buffers.remove(i);
                    proof {
                        assert(self.pairs() =~= before.remove(i as int));
                        lemma_assoc_map_remove(before, i as int);
                        assert forall|k: int| 0 <= k < self.buffers@.len() implies buffer_ok(#[trigger] self.buffers@[k]@) by {
                            if k < i {
                                assert(self.buffers@[k] == old(self).buffers@[k]);
                            } else {
                                assert(self.buffers@[k] == old(self).buffers@[k + 1]);
                            }
                        }
                    }
                    true
                } else {
                    false
                }
            },
            None => true,
        }
    }
}

} // verus!
