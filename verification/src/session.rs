//! Sessions across connections: how many connections share each session,
//! and the settings a session's configuration gives the flushers.
use vstd::prelude::*;
use crate::assoc::{
    assoc_map, has_key, keys_distinct, lemma_assoc_map_at, lemma_assoc_map_push,
    lemma_assoc_map_remove, lemma_assoc_map_update,
};
use crate::evp::endpoint::{Endpoint, EndpointView};
use crate::stats::{stats_endpoint, STATS_ENDPOINT_PATH};
use crate::evp::delivery::endpoint_with_path_spec;
use crate::text::str_eq;
use crate::trace_flush::FlushLimits;

verus! {

/// How many connections configured each session.
pub struct SessionCounter {
    ids: Vec<String>,
    counts: Vec<u32>,
}

impl SessionCounter {
    /// The counter as pairs of session id and count.
    pub closed spec fn pairs(&self) -> Seq<(Seq<char>, u32)> {
        Seq::new(self.ids@.len(), |i: int| (self.ids@[i]@, self.counts@[i]))
    }

    /// The invariant: one count per session, no session twice, and only
    /// sessions that some connection holds (counts are positive).
    pub closed spec fn wf(&self) -> bool {
        &&& self.ids@.len() == self.counts@.len()
        &&& keys_distinct(self.pairs())
        &&& forall|i: int| 0 <= i < self.counts@.len() ==> #[trigger] self.counts@[i] > 0
    }
}

impl View for SessionCounter {
    type V = Map<Seq<char>, u32>;

    closed spec fn view(&self) -> Map<Seq<char>, u32> {
        assoc_map(self.pairs())
    }
}

impl SessionCounter {
    /// No session.
    pub fn new() -> (res: Self)
        ensures
            res.wf(),
            res@ == Map::<Seq<char>, u32>::empty(),
    {
        let res = SessionCounter { ids: Vec::new(), counts: Vec::new() };
        assert(res@ =~= Map::<Seq<char>, u32>::empty());
        res
    }

    /// Every session held is held by at least one connection.
    pub proof fn lemma_counts_positive(&self, id: Seq<char>)
        requires
            self.wf(),
            self@.contains_key(id),
        ensures
            self@[id] > 0,
    {
        let i = choose|i: int| 0 <= i < self.pairs().len() && self.pairs()[i].0 == id;
        lemma_assoc_map_at(self.pairs(), i);
    }

    fn find(&self, id: &str) -> (res: Option<usize>)
        requires
            self.wf(),
        ensures
            match res {
                Some(i) => i < self.ids@.len() && self.pairs()[i as int].0 == id@,
                None => !has_key(self.pairs(), id@),
            },
    {
        let mut i: usize = 0;
        while i < self.ids.len()
            invariant
                self.wf(),
                i <= self.ids@.len(),
                forall|j: int| 0 <= j < i ==> self.pairs()[j].0 != id@,
            decreases self.ids@.len() - i,
        {
            if str_eq(self.ids[i].as_str(), id) {
                return Some(i);
            }
            i = i + 1;
        }
        None
    }

    /// How many sessions are held.
    pub fn len(&self) -> (res: usize)
        requires
            self.wf(),
        ensures
            res == self@.len(),
    {
        proof {
            lemma_assoc_len(self.pairs());
        }
        self.ids.len()
    }

    /// How many connections hold session `id` (0 when none does).
    pub fn count(&self, id: &str) -> (res: u32)
        requires
            self.wf(),
        ensures
            res == (if self@.contains_key(id@) {
                self@[id@]
            } else {
                0
            }),
    {
        match self.find(id) {
            Some(i) => {
                proof {
                    lemma_assoc_map_at(self.pairs(), i as int);
                }
                self.counts[i]
            },
            None => 0,
        }
    }

    /// A connection configured session `id` for the first time: one more
    /// holder.
    pub fn join(&mut self, id: &str)
        requires
            old(self).wf(),
            old(self)@.contains_key(id@) ==> old(self)@[id@] < u32::MAX,
        ensures
            final(self).wf(),
            final(self)@ == old(self)@.insert(
                id@,
                if old(self)@.contains_key(id@) {
                    (old(self)@[id@] + 1) as u32
                } else {
                    1u32
                },
            ),
    {
        let ghost before = self.pairs();
        match self.find(id) {
            Some(i) => {
                proof {
                    lemma_assoc_map_at(before, i as int);
                }
                let c = self.counts[i];
                self.counts.set(i, c + 1);
                proof {
                    assert(self.pairs() =~= before.update(i as int, (before[i as int].0, (c + 1) as u32)));
                    lemma_assoc_map_update(before, i as int, (c + 1) as u32);
                }
            },
            None => {
                let ghost k = id@;
                self.ids.push(id.to_owned());
                self.counts.push(1);
                proof {
                    assert(self.pairs() =~= before.push((k, 1u32)));
                    lemma_assoc_map_push(before, k, 1u32);
                }
            },
        }
    }

    /// A connection that configured session `id` went away: one holder
    /// fewer. Returns whether it was the last, in which case the session is
    /// forgotten and is to be stopped.
    pub fn leave(&mut self, id: &str) -> (stop: bool)
        requires
            old(self).wf(),
        ensures
            final(self).wf(),
            !old(self)@.contains_key(id@) ==> !stop && final(self)@ == old(self)@,
            old(self)@.contains_key(id@) && old(self)@[id@] == 1 ==> stop && final(self)@ == old(
                self,
            )@.remove(id@),
            old(self)@.contains_key(id@) && old(self)@[id@] > 1 ==> !stop && final(self)@ == old(
                self,
            )@.insert(id@, (old(self)@[id@] - 1) as u32),
    {
        let ghost before = self.pairs();
        match self.find(id) {
            Some(i) => {
                proof {
                    lemma_assoc_map_at(before, i as int);
                }
                let c = self.counts[i];
                if c == 1 {
                    self.ids.remove(i);
                    self.counts.remove(i);
                    proof {
                        assert(self.pairs() =~= before.remove(i as int));
                        lemma_assoc_map_remove(before, i as int);
                        assert forall|k: int| 0 <= k < self.counts@.len() implies #[trigger] self.counts@[k] > 0 by {
                            if k < i {
                                assert(self.counts@[k] == old(self).counts@[k]);
                            } else {
                                assert(self.counts@[k] == old(self).counts@[k + 1]);
                            }
                        }
                    }
                    true
                } else {
                    self.counts.set(i, c - 1);
                    proof {
                        assert(self.pairs() =~= before.update(i as int, (before[i as int].0, (c - 1) as u32)));
                        lemma_assoc_map_update(before, i as int, (c - 1) as u32);
                    }
                    false
                }
            },
            None => false,
        }
    }
}

/// A map has as many keys as its association list has pairs.
proof fn lemma_assoc_len<K, V>(s: Seq<(K, V)>)
    requires
        keys_distinct(s),
    ensures
        assoc_map(s).len() == s.len(),
        assoc_map(s).dom().finite(),
    decreases s.len(),
{
    if s.len() == 0 {
        assert(assoc_map(s).dom() =~= Set::<K>::empty());
    } else {
        let t = s.drop_last();
        assert(keys_distinct(t)) by {
            assert forall|a: int, b: int| 0 <= a < t.len() && 0 <= b < t.len() && a != b implies t[a].0
                != t[b].0 by {
                assert(t[a] == s[a]);
                assert(t[b] == s[b]);
            }
        }
        lemma_assoc_len(t);
        assert(!has_key(t, s.last().0)) by {
            if has_key(t, s.last().0) {
                let j = choose|j: int| 0 <= j < t.len() && t[j].0 == s.last().0;
                assert(s[j].0 == s[s.len() - 1].0);
            }
        }
        assert(s =~= t.push(s.last()));
        lemma_assoc_map_push(t, s.last().0, s.last().1);
    }
}

/// Every connection that joins and then leaves gives the session back: a
/// session held by one connection is stopped when it leaves, and one held
/// by several survives.
pub proof fn lemma_join_leave_balance(m: Map<Seq<char>, u32>, id: Seq<char>)
    requires
        m.contains_key(id) ==> 0 < m[id] < u32::MAX,
    ensures
        ({
            let joined = m.insert(
                id,
                if m.contains_key(id) {
                    (m[id] + 1) as u32
                } else {
                    1u32
                },
            );
            &&& joined[id] >= 1
            &&& (joined[id] == 1 <==> !m.contains_key(id))
            &&& m.contains_key(id) ==> joined.insert(id, (joined[id] - 1) as u32) == m
            &&& !m.contains_key(id) ==> joined.remove(id) == m
        }),
{
    let joined = m.insert(
        id,
        if m.contains_key(id) {
            (m[id] + 1) as u32
        } else {
            1u32
        },
    );
    if m.contains_key(id) {
        assert(joined.insert(id, (joined[id] - 1) as u32) =~= m);
    } else {
        assert(joined.remove(id) =~= m);
    }
}

/// The flush limits a session's configuration sets: its sizes, cut to 32
/// bits as the trace flusher stores them.
pub fn flush_limits_for(force_flush_size: usize, force_drop_size: usize) -> (res: FlushLimits)
    ensures
        res.min_force_flush_size_bytes == force_flush_size as u32,
        res.min_force_drop_size_bytes == force_drop_size as u32,
{
    FlushLimits {
        min_force_flush_size_bytes: force_flush_size as u32,
        min_force_drop_size_bytes: force_drop_size as u32,
    }
}

/// `tags` joined with commas.
pub open spec fn comma_joined(tags: Seq<Seq<char>>) -> Seq<char>
    decreases tags.len(),
{
    if tags.len() == 0 {
        Seq::empty()
    } else if tags.len() == 1 {
        tags[0]
    } else {
        comma_joined(tags.drop_last()) + seq![','] + tags.last()
    }
}

/// The text of each tag.
pub open spec fn tag_texts(tags: Seq<String>) -> Seq<Seq<char>> {
    Seq::new(tags.len(), |i: int| tags[i]@)
}

/// Joins `tags` with commas.
pub fn join_with_commas(tags: &[String]) -> (res: String)
    ensures
        res@ == comma_joined(tag_texts(tags@)),
{
    let mut out = String::new();
    let mut i: usize = 0;
    while i < tags.len()
        invariant
            i <= tags@.len(),
            out@ == comma_joined(tag_texts(tags@.take(i as int))),
        decreases tags@.len() - i,
    {
        let ghost prev = tag_texts(tags@.take(i as int));
        if i > 0 {
            out.append(",");
            proof {
                reveal_strlit(",");
            }
        }
        out.append(tags[i].as_str());
        proof {
            let next = tag_texts(tags@.take(i + 1));
            assert(next.drop_last() =~= prev);
            assert(next.last() == tags@[i as int]@);
            if i == 0 {
                assert(next =~= seq![tags@[0]@]);
            }
        }
        i = i + 1;
    }
    proof {
        assert(tags@.take(tags@.len() as int) =~= tags@);
    }
    out
}

/// What a session's span stats concentrators are created with.
#[derive(Debug)]
pub struct StatsConfig {
    /// The stats endpoint (the session's endpoint when no stats path applies).
    pub endpoint: Endpoint,
    pub flush_interval_ms: u64,
    pub hostname: String,
    /// The process tags, joined with commas.
    pub process_tags: String,
    pub root_service: String,
    pub language: String,
    pub tracer_version: String,
}

/// The stats configuration of a session: the stats endpoint of its
/// endpoint (the endpoint itself when it sends agentless or the path cannot
/// be set); its configured hostname, or the machine's when none is
/// configured; its process tags joined with commas.
pub fn stats_config_for(
    endpoint: &Endpoint,
    flush_interval_ms: u64,
    configured_hostname: &str,
    machine_hostname: &str,
    process_tags: &[String],
    root_service: &str,
    language: &str,
    tracer_version: &str,
) -> (res: StatsConfig)
    ensures
        endpoint.api_key is None && endpoint_with_path_spec(endpoint@, STATS_ENDPOINT_PATH@) is Ok
            ==> endpoint_with_path_spec(endpoint@, STATS_ENDPOINT_PATH@) == Ok::<
            EndpointView,
            Seq<char>,
        >(res.endpoint@),
        !(endpoint.api_key is None && endpoint_with_path_spec(endpoint@, STATS_ENDPOINT_PATH@) is Ok)
            ==> res.endpoint@ == endpoint@,
        res.flush_interval_ms == flush_interval_ms,
        res.hostname@ == (if configured_hostname@.len() == 0 {
            machine_hostname@
        } else {
            configured_hostname@
        }),
        res.process_tags@ == comma_joined(tag_texts(process_tags@)),
        res.root_service@ == root_service@,
        res.language@ == language@,
        res.tracer_version@ == tracer_version@,
{
    let stats = match stats_endpoint(endpoint) {
        Some(e) => e,
        None => endpoint.duplicate(),
    };
    let hostname = if configured_hostname.unicode_len() == 0 {
        machine_hostname.to_owned()
    } else {
        configured_hostname.to_owned()
    };
    StatsConfig {
        endpoint: stats,
        flush_interval_ms,
        hostname,
        process_tags: join_with_commas(process_tags),
        root_service: root_service.to_owned(),
        language: language.to_owned(),
        tracer_version: tracer_version.to_owned(),
    }
}

/// One check of an idle sidecar, at `now_ms`: while connections are
/// active (`active` counts them) the last time one was seen moves to now;
/// the sidecar shuts down once no connection has been seen for longer than
/// `linger_ms`. Returns the new last-seen time and whether to shut down.
pub fn idle_tick(last_seen_ms: u64, active: i32, now_ms: u64, linger_ms: u64) -> (res: (u64, bool))
    requires
        last_seen_ms <= now_ms,
    ensures
        res.0 == (if active > 0 { now_ms } else { last_seen_ms }),
        res.1 == (now_ms - res.0 > linger_ms),
{
    let last = if active > 0 { now_ms } else { last_seen_ms };
    (last, now_ms - last > linger_ms)
}

} // verus!
