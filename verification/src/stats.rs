//! Span stats concentrators: one per (env, version, root service), kept alive
//! by guards and retired once nobody has held one for a quiet period.
use vstd::prelude::*;
use crate::assoc::{
    assoc_map, has_key, keys_distinct, lemma_assoc_map_at, lemma_assoc_map_push,
    lemma_assoc_map_remove, lemma_assoc_map_update,
};
use crate::text::str_eq;
use crate::shm_names::{env_stats_shm_path, is_stats_shm_name, SHM_NAME_LIMIT};
use crate::evp::delivery::{endpoint_with_path, endpoint_with_path_spec};
use crate::evp::endpoint::{Endpoint, EndpointView};

verus! {

/// How long a concentrator that no guard holds is kept before it is removed.
pub const IDLE_REMOVE_SECS: u64 = 600;

/// The idle-since mark of a concentrator that some guard holds.
pub const NEVER_IDLE: u64 = 0xffff_ffff_ffff_ffff;

/// The Agent path span stats are posted to.
pub const STATS_ENDPOINT_PATH: &'static str = "/v0.6/stats";

/// The stats endpoint of a session's endpoint: none when it sends
/// agentless (an API key is set: stats need a local Agent); otherwise the
/// endpoint with its path replaced by [`STATS_ENDPOINT_PATH`], if that
/// yields a valid URI.
pub fn stats_endpoint(endpoint: &Endpoint) -> (res: Option<Endpoint>)
    ensures
        endpoint.api_key is Some ==> res is None,
        endpoint.api_key is None ==> match res {
            Some(e) => endpoint_with_path_spec(endpoint@, STATS_ENDPOINT_PATH@) == Ok::<
                EndpointView,
                Seq<char>,
            >(e@),
            None => endpoint_with_path_spec(endpoint@, STATS_ENDPOINT_PATH@) is Err,
        },
{
    if endpoint.api_key.is_some() {
        return None;
    }
    match endpoint_with_path(endpoint, STATS_ENDPOINT_PATH) {
        Ok(e) => Some(e),
        Err(_) => None,
    }
}

/// The (env, version, root service) a concentrator aggregates.
#[derive(Clone, Debug, Hash, PartialEq, Eq)]
pub struct ConcentratorKey {
    pub env: String,
    pub version: String,
    pub root_service: String,
}

impl View for ConcentratorKey {
    type V = (Seq<char>, Seq<char>, Seq<char>);

    open spec fn view(&self) -> (Seq<char>, Seq<char>, Seq<char>) {
        (self.env@, self.version@, self.root_service@)
    }
}

impl ConcentratorKey {
    /// The key of the given env, version and root service.
    pub fn new(env: &str, version: &str, root_service: &str) -> (res: Self)
        ensures
            res@ == (env@, version@, root_service@),
    {
        ConcentratorKey {
            env: env.to_owned(),
            version: version.to_owned(),
            root_service: root_service.to_owned(),
        }
    }

    /// Whether both keys name the same env, version and root service.
    pub fn same_as(&self, other: &Self) -> (res: bool)
        ensures
            res == (self@ == other@),
    {
        str_eq(self.env.as_str(), other.env.as_str()) && str_eq(
            self.version.as_str(),
            other.version.as_str(),
        ) && str_eq(self.root_service.as_str(), other.root_service.as_str())
    }

    /// A copy of this key.
    pub fn duplicate(&self) -> (res: Self)
        ensures
            res@ == self@,
    {
        ConcentratorKey {
            env: self.env.clone(),
            version: self.version.clone(),
            root_service: self.root_service.clone(),
        }
    }
}

/// How many guards hold a concentrator, and since when none has
/// ([`NEVER_IDLE`] while one does).
#[derive(Clone, Copy, Debug, PartialEq, Eq, Structural)]
pub struct Liveness {
    pub ref_count: usize,
    pub last_zero_secs: u64,
}

/// The liveness of a freshly created concentrator: one guard.
pub open spec fn created_liveness() -> Liveness {
    Liveness { ref_count: 1, last_zero_secs: NEVER_IDLE }
}

/// One more guard (the counter wraps as an atomic add does); the idle mark is cleared.
pub open spec fn acquired(l: Liveness) -> Liveness {
    Liveness {
        ref_count: if l.ref_count == usize::MAX {
            0
        } else {
            (l.ref_count + 1) as usize
        },
        last_zero_secs: NEVER_IDLE,
    }
}

/// One guard fewer at time `now` (the counter wraps as an atomic subtract
/// does); the last one leaving records `now` as the start of the idle period.
pub open spec fn released(l: Liveness, now: u64) -> Liveness {
    if l.ref_count == 1 {
        Liveness { ref_count: 0, last_zero_secs: now }
    } else {
        Liveness {
            ref_count: if l.ref_count == 0 {
                usize::MAX
            } else {
                (l.ref_count - 1) as usize
            },
            last_zero_secs: l.last_zero_secs,
        }
    }
}

/// Seconds a concentrator has been without guards at time `now` (0 while
/// held, and 0 when the clock reads earlier than the mark).
pub open spec fn idle_secs_of(l: Liveness, now: u64) -> u64 {
    if l.ref_count == 0 && l.last_zero_secs != NEVER_IDLE && now >= l.last_zero_secs {
        (now - l.last_zero_secs) as u64
    } else {
        0
    }
}

/// Whether a concentrator is due for removal at time `now`.
pub open spec fn expired(l: Liveness, now: u64) -> bool {
    idle_secs_of(l, now) >= IDLE_REMOVE_SECS
}

impl Liveness {
    /// Seconds without guards at time `now`.
    pub fn idle_secs(&self, now: u64) -> (res: u64)
        ensures
            res == idle_secs_of(*self, now),
    {
        if self.ref_count == 0 && self.last_zero_secs != NEVER_IDLE {
            now.saturating_sub(self.last_zero_secs)
        } else {
            0
        }
    }

    /// Whether the concentrator is due for removal at time `now`.
    pub fn is_expired(&self, now: u64) -> (res: bool)
        ensures
            res == expired(*self, now),
    {
        self.idle_secs(now) >= IDLE_REMOVE_SECS
    }
}

/// Keeps the concentrator of its key alive until it is handed back with
/// [`ConcentratorRegistry::release`].
#[derive(Debug)]
pub struct SpanConcentratorGuard {
    key: ConcentratorKey,
}

impl SpanConcentratorGuard {
    /// The key of the concentrator this guard holds.
    pub closed spec fn spec_key(&self) -> (Seq<char>, Seq<char>, Seq<char>) {
        self.key@
    }

    /// The key of the concentrator this guard holds.
    pub fn key(&self) -> (res: &ConcentratorKey)
        ensures
            res@ == self.spec_key(),
    {
        &self.key
    }
}

/// What to do about a request for a concentrator.
#[derive(Debug)]
pub enum EnsureStep {
    /// Stats are off for this session (no stats configuration, or agentless).
    Skip,
    /// The concentrator exists; here is a guard for it.
    Acquired(SpanConcentratorGuard),
    /// None exists yet: create one at `path` (its stats shared-memory
    /// name), then [`ConcentratorRegistry::finish_create`].
    Create { path: String },
}

/// What one tick of a concentrator's flush loop does.
#[derive(Debug, Clone, Copy, PartialEq, Eq, Structural)]
pub enum FlushTick {
    /// The concentrator is gone: end the loop.
    Stop,
    /// Flush what is due and keep going.
    Flush,
    /// The concentrator was removed: flush everything and end the loop.
    FlushAllAndStop,
}

/// The concentrators that exist, each with its liveness.
pub struct ConcentratorRegistry {
    keys: Vec<ConcentratorKey>,
    states: Vec<Liveness>,
}

impl ConcentratorRegistry {
    /// The registry as pairs of key and liveness.
    pub closed spec fn pairs(&self) -> Seq<((Seq<char>, Seq<char>, Seq<char>), Liveness)> {
        Seq::new(self.keys@.len(), |i: int| (self.keys@[i]@, self.states@[i]))
    }

    /// The registry's invariant: one liveness per key, and no key twice.
    pub closed spec fn wf(&self) -> bool {
        &&& self.keys@.len() == self.states@.len()
        &&& keys_distinct(self.pairs())
    }
}

impl View for ConcentratorRegistry {
    type V = Map<(Seq<char>, Seq<char>, Seq<char>), Liveness>;

    closed spec fn view(&self) -> Map<(Seq<char>, Seq<char>, Seq<char>), Liveness> {
        assoc_map(self.pairs())
    }
}

impl ConcentratorRegistry {
    /// An empty registry.
    pub fn new() -> (res: Self)
        ensures
            res.wf(),
            res@ == Map::<(Seq<char>, Seq<char>, Seq<char>), Liveness>::empty(),
    {
        let res = ConcentratorRegistry { keys: Vec::new(), states: Vec::new() };
        assert(res@ =~= Map::<(Seq<char>, Seq<char>, Seq<char>), Liveness>::empty());
        res
    }

    /// The index of `key`, if it is registered.
    fn find(&self, key: &ConcentratorKey) -> (res: Option<usize>)
        requires
            self.wf(),
        ensures
            match res {
                Some(i) => i < self.keys@.len() && self.pairs()[i as int].0 == key@,
                None => !has_key(self.pairs(), key@),
            },
    {
        let mut i: usize = 0;
        while i < self.keys.len()
            invariant
                self.wf(),
                i <= self.keys@.len(),
                forall|j: int| 0 <= j < i ==> self.pairs()[j].0 != key@,
            decreases self.keys@.len() - i,
        {
            if self.keys[i].same_as(key) {
                return Some(i);
            }
            i = i + 1;
        }
        None
    }

    /// Whether a concentrator for `key` exists.
    pub fn contains(&self, key: &ConcentratorKey) -> (res: bool)
        requires
            self.wf(),
        ensures
            res == self@.contains_key(key@),
    {
        match self.find(key) {
            Some(i) => {
                proof {
                    lemma_assoc_map_at(self.pairs(), i as int);
                }
                true
            },
            None => false,
        }
    }

    /// The liveness of the concentrator for `key`, if it exists.
    pub fn liveness(&self, key: &ConcentratorKey) -> (res: Option<Liveness>)
        requires
            self.wf(),
        ensures
            match res {
                Some(l) => self@.contains_key(key@) && self@[key@] == l,
                None => !self@.contains_key(key@),
            },
    {
        match self.find(key) {
            Some(i) => {
                proof {
                    lemma_assoc_map_at(self.pairs(), i as int);
                }
                Some(self.states[i])
            },
            None => None,
        }
    }

    /// Replaces the liveness at index `i`.
    fn set_state(&mut self, i: usize, l: Liveness)
        requires
            old(self).wf(),
            i < old(self).keys@.len(),
        ensures
            final(self).wf(),
            final(self)@ == old(self)@.insert(old(self).pairs()[i as int].0, l),
            final(self).keys@ == old(self).keys@,
    {
        let ghost before = self.pairs();
        self.states.set(i, l);
        proof {
            assert(self.pairs() =~= before.update(i as int, (before[i as int].0, l)));
            lemma_assoc_map_update(before, i as int, l);
        }
    }

    /// The decision of a request for the concentrator of `key`: nothing when
    /// the session has no stats configuration or sends agentless; a guard when
    /// the concentrator exists (one more holder, idle mark cleared); otherwise
    /// the instruction to create it.
    pub fn ensure_step(&mut self, key: &ConcentratorKey, has_stats_config: bool, agentless: bool) -> (res: EnsureStep)
        requires
            old(self).wf(),
        ensures
            final(self).wf(),
            !has_stats_config || agentless ==> res is Skip && final(self)@ == old(self)@,
            has_stats_config && !agentless && old(self)@.contains_key(key@) ==> {
                &&& res matches EnsureStep::Acquired(g) && g.spec_key() == key@
                &&& final(self)@ == old(self)@.insert(key@, acquired(old(self)@[key@]))
            },
            has_stats_config && !agentless && !old(self)@.contains_key(key@) ==> {
                &&& res matches EnsureStep::Create { path } && is_stats_shm_name(path@)
                    && path@.len() <= SHM_NAME_LIMIT
                &&& final(self)@ == old(self)@
            },
    {
        if !has_stats_config || agentless {
            return EnsureStep::Skip;
        }
        match self.find(key) {
            Some(i) => {
                proof {
                    lemma_assoc_map_at(self.pairs(), i as int);
                }
                let l = self.states[i];
                let count = if l.ref_count == usize::MAX {
                    0
                } else {
                    l.ref_count + 1
                };
                self.set_state(i, Liveness { ref_count: count, last_zero_secs: NEVER_IDLE });
                EnsureStep::Acquired(SpanConcentratorGuard { key: key.duplicate() })
            },
            None => EnsureStep::Create {
                path: env_stats_shm_path(
                    key.env.as_str(),
                    key.version.as_str(),
                    key.root_service.as_str(),
                ),
            },
        }
    }

    /// Registers the concentrator just created for `key`, held by the guard
    /// returned.
    pub fn record_created(&mut self, key: ConcentratorKey) -> (guard: SpanConcentratorGuard)
        requires
            old(self).wf(),
            !old(self)@.contains_key(key@),
        ensures
            final(self).wf(),
            final(self)@ == old(self)@.insert(key@, created_liveness()),
            guard.spec_key() == key@,
    {
        let ghost before = self.pairs();
        let ghost k = key@;
        let guard = SpanConcentratorGuard { key: key.duplicate() };
        self.keys.push(key);
        self.states.push(Liveness { ref_count: 1, last_zero_secs: NEVER_IDLE });
        proof {
            assert(self.pairs() =~= before.push((k, created_liveness())));
            lemma_assoc_map_push(before, k, created_liveness());
        }
        guard
    }

    /// Records the outcome of creating the concentrator of `key`: when it was
    /// created, it is registered and held by the guard returned; when its
    /// shared memory could not be created, nothing is registered and the
    /// request gets no guard.
    pub fn finish_create(&mut self, key: ConcentratorKey, created: bool) -> (res: Option<SpanConcentratorGuard>)
        requires
            old(self).wf(),
            !old(self)@.contains_key(key@),
        ensures
            final(self).wf(),
            created ==> (res matches Some(g) && g.spec_key() == key@) && final(self)@ == old(
                self,
            )@.insert(key@, created_liveness()),
            !created ==> res is None && final(self)@ == old(self)@,
    {
        if created {
            Some(self.record_created(key))
        } else {
            None
        }
    }

    /// Hands a guard back at time `now`: its concentrator has one holder
    /// fewer, and when the last one leaves its idle period starts. A
    /// concentrator removed meanwhile is not affected.
    pub fn release(&mut self, guard: SpanConcentratorGuard, now: u64)
        requires
            old(self).wf(),
        ensures
            final(self).wf(),
            old(self)@.contains_key(guard.spec_key()) ==> final(self)@ == old(self)@.insert(
                guard.spec_key(),
                released(old(self)@[guard.spec_key()], now),
            ),
            !old(self)@.contains_key(guard.spec_key()) ==> final(self)@ == old(self)@,
    {
        match self.find(&guard.key) {
            Some(i) => {
                proof {
                    lemma_assoc_map_at(self.pairs(), i as int);
                }
                let l = self.states[i];
                let next = if l.ref_count == 1 {
                    Liveness { ref_count: 0, last_zero_secs: now }
                } else if l.ref_count == 0 {
                    Liveness { ref_count: usize::MAX, last_zero_secs: l.last_zero_secs }
                } else {
                    Liveness { ref_count: l.ref_count - 1, last_zero_secs: l.last_zero_secs }
                };
                self.set_state(i, next);
            },
            None => {
                proof {
                    assert(!self@.contains_key(guard.spec_key()));
                }
            },
        }
    }

    /// One tick of the flush loop of `key` at time `now`: stop when the
    /// concentrator is gone; remove it, and flush everything one last time,
    /// once it has been without guards for [`IDLE_REMOVE_SECS`]; otherwise
    /// flush what is due.
    pub fn tick(&mut self, key: &ConcentratorKey, now: u64) -> (res: FlushTick)
        requires
            old(self).wf(),
        ensures
            final(self).wf(),
            !old(self)@.contains_key(key@) ==> res == FlushTick::Stop && final(self)@ == old(
                self,
            )@,
            old(self)@.contains_key(key@) && expired(old(self)@[key@], now) ==> res
                == FlushTick::FlushAllAndStop && final(self)@ == old(self)@.remove(key@),
            old(self)@.contains_key(key@) && !expired(old(self)@[key@], now) ==> res
                == FlushTick::Flush && final(self)@ == old(self)@,
    {
        match self.find(key) {
            Some(i) => {
                proof {
                    lemma_assoc_map_at(self.pairs(), i as int);
                }
                if self.states[i].is_expired(now) {
                    let ghost before = self.pairs();
                    self.keys.remove(i);
                    self.states.remove(i);
                    proof {
                        assert(self.pairs() =~= before.remove(i as int));
                        lemma_assoc_map_remove(before, i as int);
                    }
                    FlushTick::FlushAllAndStop
                } else {
                    FlushTick::Flush
                }
            },
            None => FlushTick::Stop,
        }
    }
}

/// A concentrator that some guard holds is never due for removal, whatever
/// the time.
pub proof fn lemma_held_concentrator_is_kept(l: Liveness, now: u64)
    requires
        l.ref_count > 0,
    ensures
        !expired(l, now),
{
}

/// Once the last guard leaves at `t`, the concentrator is removed exactly
/// when [`IDLE_REMOVE_SECS`] have passed since `t`.
pub proof fn lemma_removed_after_quiet_period(l: Liveness, t: u64, now: u64)
    requires
        l.ref_count == 1,
        t != NEVER_IDLE,
        t <= now,
    ensures
        expired(released(l, t), now) <==> now - t >= IDLE_REMOVE_SECS,
{
}

/// Taking a guard and handing it back leaves a held concentrator as it was.
pub proof fn lemma_acquire_release_round_trip(l: Liveness, now: u64)
    requires
        1 <= l.ref_count < usize::MAX,
        l.last_zero_secs == NEVER_IDLE,
    ensures
        released(acquired(l), now) == l,
{
}

/// A concentrator just asked for is not due for removal, however long it
/// had been idle before.
pub proof fn lemma_acquire_resets_idle(l: Liveness, now: u64)
    requires
        l.ref_count < usize::MAX,
    ensures
        !expired(acquired(l), now),
{
}

} // verus!
