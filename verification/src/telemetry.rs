//! Telemetry delivery: the retry queue for batches whose client is not ready
//! yet, and the codes of the telemetry C interface.
use vstd::prelude::*;
use crate::text::str_eq;
use crate::assoc::{
    assoc_map, has_key, keys_distinct, lemma_assoc_map_at, lemma_assoc_map_push,
    lemma_assoc_map_remove, lemma_assoc_map_update,
};

verus! {

/// Wait before a batch whose client was not ready is tried again.
pub const RETRY_DELAY_MS: u64 = 1500;

/// How many times a batch is tried before it is dropped.
pub const MAX_ATTEMPTS: u8 = 3;

/// Actions for one (service, env) telemetry client, waiting to be retried.
#[derive(Debug)]
pub struct DeferredBatch<A> {
    pub service_name: String,
    pub env_name: String,
    /// The batches, oldest first; never empty.
    pub actions: Vec<A>,
    /// Tries left before the batch is dropped.
    pub attempts_left: u8,
    /// When the next try is due, in milliseconds on the caller's clock.
    pub next_attempt_at_ms: u64,
}

/// Spec view of a [`DeferredBatch`].
pub struct DeferredView<A> {
    pub key: (Seq<char>, Seq<char>),
    pub actions: Seq<A>,
    pub attempts_left: u8,
    pub next_attempt_at_ms: u64,
}

impl<A> View for DeferredBatch<A> {
    type V = DeferredView<A>;

    open spec fn view(&self) -> DeferredView<A> {
        DeferredView {
            key: (self.service_name@, self.env_name@),
            actions: self.actions@,
            attempts_left: self.attempts_left,
            next_attempt_at_ms: self.next_attempt_at_ms,
        }
    }
}

/// A deferred batch as the queue keeps it: something to deliver, and one or
/// more tries left.
pub open spec fn deferred_ok<A>(d: DeferredView<A>) -> bool {
    d.actions.len() > 0 && 1 <= d.attempts_left < MAX_ATTEMPTS
}

/// The batches waiting for their telemetry client.
pub struct RetryQueue<A> {
    pending: Vec<DeferredBatch<A>>,
}

impl<A> View for RetryQueue<A> {
    type V = Seq<DeferredView<A>>;

    closed spec fn view(&self) -> Seq<DeferredView<A>> {
        Seq::new(self.pending@.len(), |i: int| self.pending@[i]@)
    }
}

impl<A> RetryQueue<A> {
    /// The queue's invariant: every waiting batch is one it may still try.
    pub open spec fn wf(&self) -> bool {
        forall|i: int| 0 <= i < self@.len() ==> deferred_ok(#[trigger] self@[i])
    }

    /// An empty queue.
    pub fn new() -> (res: Self)
        ensures
            res.wf(),
            res@ == Seq::<DeferredView<A>>::empty(),
    {
        let res = RetryQueue { pending: Vec::new() };
        assert(res@ =~= Seq::<DeferredView<A>>::empty());
        res
    }

    /// Whether nothing waits.
    pub fn is_empty(&self) -> (res: bool)
        ensures
            res == (self@.len() == 0),
    {
        self.pending.len() == 0
    }

    /// How many batches wait.
    pub fn len(&self) -> (res: usize)
        ensures
            res == self@.len(),
    {
        self.pending.len()
    }

    /// A fresh batch whose client was not ready at `now_ms`: it waits, with
    /// the tries it has left after this first one.
    pub fn defer_fresh(&mut self, service_name: String, env_name: String, batch: A, now_ms: u64)
        requires
            old(self).wf(),
            now_ms + RETRY_DELAY_MS <= u64::MAX,
        ensures
            final(self).wf(),
            final(self)@ == old(self)@.push(
                DeferredView {
                    key: (service_name@, env_name@),
                    actions: seq![batch],
                    attempts_left: (MAX_ATTEMPTS - 1) as u8,
                    next_attempt_at_ms: (now_ms + RETRY_DELAY_MS) as u64,
                },
            ),
    {
        let ghost before = self@;
        let mut actions: Vec<A> = Vec::new();
        actions.push(batch);
        self.pending.push(
            DeferredBatch {
                service_name,
                env_name,
                actions,
                attempts_left: MAX_ATTEMPTS - 1,
                next_attempt_at_ms: now_ms + RETRY_DELAY_MS,
            },
        );
        assert(self@ =~= before.push(self.pending@.last()@));
    }

    /// A waiting batch whose client was still not ready at `now_ms`: it
    /// waits again while it has tries left, and is dropped otherwise.
    /// Returns whether it waits again.
    pub fn defer_again(&mut self, deferred: DeferredBatch<A>, now_ms: u64) -> (requeued: bool)
        requires
            old(self).wf(),
            deferred_ok(deferred@),
            now_ms + RETRY_DELAY_MS <= u64::MAX,
        ensures
            final(self).wf(),
            requeued == (deferred.attempts_left > 1),
            requeued ==> final(self)@ == old(self)@.push(
                DeferredView {
                    attempts_left: (deferred.attempts_left - 1) as u8,
                    next_attempt_at_ms: (now_ms + RETRY_DELAY_MS) as u64,
                    ..deferred@
                },
            ),
            !requeued ==> final(self)@ == old(self)@,
    {
        let remaining = deferred.attempts_left - 1;
        if remaining > 0 {
            let ghost before = self@;
            self.pending.push(
                DeferredBatch {
                    service_name: deferred.service_name,
                    env_name: deferred.env_name,
                    actions: deferred.actions,
                    attempts_left: remaining,
                    next_attempt_at_ms: now_ms + RETRY_DELAY_MS,
                },
            );
            assert(self@ =~= before.push(self.pending@.last()@));
            true
        } else {
            false
        }
    }

    /// The index of the batch due first (the first of several due at once).
    pub fn earliest(&self) -> (res: Option<usize>)
        ensures
            res is None <==> self@.len() == 0,
            res matches Some(i) ==> {
                &&& i < self@.len()
                &&& forall|j: int| 0 <= j < self@.len() ==> self@[i as int].next_attempt_at_ms <= (
                #[trigger] self@[j]).next_attempt_at_ms
                &&& forall|j: int| 0 <= j < i ==> self@[i as int].next_attempt_at_ms < (
                #[trigger] self@[j]).next_attempt_at_ms
            },
    {
        if self.pending.len() == 0 {
            return None;
        }
        let mut best: usize = 0;
        let mut i: usize = 1;
        while i < self.pending.len()
            invariant
                1 <= i <= self@.len(),
                self@.len() == self.pending@.len(),
                best < i,
                forall|j: int| 0 <= j < i ==> self@[best as int].next_attempt_at_ms <= (
                #[trigger] self@[j]).next_attempt_at_ms,
                forall|j: int| 0 <= j < best ==> self@[best as int].next_attempt_at_ms < (
                #[trigger] self@[j]).next_attempt_at_ms,
            decreases self@.len() - i,
        {
            if self.pending[i].next_attempt_at_ms < self.pending[best].next_attempt_at_ms {
                best = i;
            }
            i = i + 1;
        }
        Some(best)
    }

    /// When the batch due first is due, if any batch waits.
    pub fn next_deadline_ms(&self) -> (res: Option<u64>)
        ensures
            res is None <==> self@.len() == 0,
            res matches Some(t) ==> {
                &&& exists|i: int| 0 <= i < self@.len() && (#[trigger] self@[i]).next_attempt_at_ms == t
                &&& forall|j: int| 0 <= j < self@.len() ==> t <= (#[trigger] self@[j]).next_attempt_at_ms
            },
    {
        match self.earliest() {
            None => None,
            Some(i) => {
                let t = self.pending[i].next_attempt_at_ms;
                assert(self@[i as int].next_attempt_at_ms == t);
                Some(t)
            },
        }
    }

    /// The deadline of the batch due first came: it leaves the queue to be
    /// tried (the last batch takes its place).
    pub fn take_due(&mut self) -> (res: Option<DeferredBatch<A>>)
        requires
            old(self).wf(),
        ensures
            final(self).wf(),
            old(self)@.len() == 0 ==> res is None && final(self)@ == old(self)@,
            old(self)@.len() > 0 ==> (res matches Some(d) && exists|i: int|
                #![trigger old(self)@[i]]
                {
                    &&& 0 <= i < old(self)@.len()
                    &&& d@ == old(self)@[i]
                    &&& forall|j: int| 0 <= j < old(self)@.len() ==> old(self)@[i].next_attempt_at_ms
                        <= (#[trigger] old(self)@[j]).next_attempt_at_ms
                    &&& forall|j: int| 0 <= j < i ==> old(self)@[i].next_attempt_at_ms < (
                    #[trigger] old(self)@[j]).next_attempt_at_ms
                    &&& final(self)@ == old(self)@.update(i, old(self)@.last()).drop_last()
                }),
    {
        match self.earliest() {
            None => None,
            Some(i) => {
                let ghost before = self@;
                let d = self.pending.swap_remove(i);
                assert(self@ =~= before.update(i as int, before.last()).drop_last());
                assert(d@ == before[i as int]);
                Some(d)
            },
        }
    }

    /// A fresh batch for (service, env) arrived while batches wait: it joins
    /// the first waiting batch of the same client (returns `None`), or, when
    /// none waits, is handed back to be tried now.
    pub fn absorb(&mut self, service_name: &str, env_name: &str, batch: A) -> (res: Option<A>)
        requires
            old(self).wf(),
        ensures
            final(self).wf(),
            (forall|j: int| 0 <= j < old(self)@.len() ==> (#[trigger] old(self)@[j]).key != (
            service_name@, env_name@)) ==> res == Some(batch) && final(self)@ == old(self)@,
            (exists|j: int| 0 <= j < old(self)@.len() && (#[trigger] old(self)@[j]).key == (
            service_name@, env_name@)) ==> res is None && exists|i: int|
                #![trigger old(self)@[i]]
                {
                    &&& 0 <= i < old(self)@.len()
                    &&& old(self)@[i].key == (service_name@, env_name@)
                    &&& forall|j: int| 0 <= j < i ==> (#[trigger] old(self)@[j]).key != (
                    service_name@, env_name@)
                    &&& final(self)@ == old(self)@.update(
                        i,
                        DeferredView { actions: old(self)@[i].actions.push(batch), ..old(self)@[i] },
                    )
                },
    {
        let mut i: usize = 0;
        while i < self.pending.len()
            invariant
                i <= self@.len(),
                self@.len() == self.pending@.len(),
                self@ == old(self)@,
                self.wf(),
                forall|j: int| 0 <= j < i ==> (#[trigger] self@[j]).key != (
                service_name@, env_name@),
            decreases self@.len() - i,
        {
            if str_eq(self.pending[i].service_name.as_str(), service_name) && str_eq(
                self.pending[i].env_name.as_str(),
                env_name,
            ) {
                let ghost before = self@;
                let mut d = self.pending.remove(i);
                d.actions.push(batch);
                self.pending.insert(i, d);
                assert(self@ =~= before.update(
                    i as int,
                    DeferredView { actions: before[i as int].actions.push(batch), ..before[i as int] },
                ));
                return None;
            }
            i = i + 1;
        }
        Some(batch)
    }
}

/// Result codes of the telemetry C interface.
#[derive(Debug, Clone, Copy, PartialEq, Eq, Structural)]
pub enum FfiError {
    Success,
    PointerNull,
    OperationFailed,
    InvalidUtf8,
    QueueFull,
}

/// The number a C caller receives for each result.
pub open spec fn ffi_error_code(e: FfiError) -> u32 {
    match e {
        FfiError::Success => 0,
        FfiError::PointerNull => 1,
        FfiError::OperationFailed => 2,
        FfiError::InvalidUtf8 => 3,
        FfiError::QueueFull => 4,
    }
}

impl FfiError {
    /// The number a C caller receives.
    pub fn code(self) -> (res: u32)
        ensures
            res == ffi_error_code(self),
    {
        match self {
            FfiError::Success => 0,
            FfiError::PointerNull => 1,
            FfiError::OperationFailed => 2,
            FfiError::InvalidUtf8 => 3,
            FfiError::QueueFull => 4,
        }
    }
}

/// Log levels a C caller passes to the telemetry interface.
#[derive(Debug, Clone, Copy, PartialEq, Eq, Structural)]
pub enum CLogLevel {
    Error,
    Warn,
    Debug,
}

/// The number a C caller passes for each level.
pub open spec fn log_level_code(l: CLogLevel) -> u32 {
    match l {
        CLogLevel::Error => 1,
        CLogLevel::Warn => 2,
        CLogLevel::Debug => 3,
    }
}

/// The level a number stands for, if any.
pub open spec fn log_level_of_code(code: u32) -> Option<CLogLevel> {
    if code == 1 {
        Some(CLogLevel::Error)
    } else if code == 2 {
        Some(CLogLevel::Warn)
    } else if code == 3 {
        Some(CLogLevel::Debug)
    } else {
        None
    }
}

impl CLogLevel {
    /// The number a C caller passes for this level.
    pub fn code(self) -> (res: u32)
        ensures
            res == log_level_code(self),
    {
        match self {
            CLogLevel::Error => 1,
            CLogLevel::Warn => 2,
            CLogLevel::Debug => 3,
        }
    }

    /// The level a C caller's number stands for: 1, 2 and 3 are error, warn
    /// and debug; any other number is none.
    pub fn from_code(code: u32) -> (res: Option<CLogLevel>)
        ensures
            res == log_level_of_code(code),
    {
        match code {
            1 => Some(CLogLevel::Error),
            2 => Some(CLogLevel::Warn),
            3 => Some(CLogLevel::Debug),
            _ => None,
        }
    }
}

/// Every level's number reads back as that level.
pub proof fn lemma_log_level_code_round_trip(l: CLogLevel)
    ensures
        log_level_of_code(log_level_code(l)) == Some(l),
{
}

/// A cached telemetry client: which one (the caller's handle for it) and
/// when it was last used, in milliseconds.
#[derive(Debug, Clone, Copy, PartialEq, Eq, Structural)]
pub struct CacheEntry {
    pub client: u64,
    pub last_used_ms: u64,
}

/// A cached client unused for `ttl_ms` at `now`: it is dropped.
pub open spec fn idle_too_long(e: CacheEntry, now: u64, ttl_ms: u64) -> bool {
    now >= e.last_used_ms && now - e.last_used_ms >= ttl_ms
}

/// The telemetry clients of the sidecar, one per (service, env).
pub struct TelemetryClientCache {
    services: Vec<String>,
    envs: Vec<String>,
    entries: Vec<CacheEntry>,
}

impl TelemetryClientCache {
    /// The cache as pairs of key and entry.
    pub closed spec fn pairs(&self) -> Seq<((Seq<char>, Seq<char>), CacheEntry)> {
        Seq::new(self.entries@.len(), |i: int| ((self.services@[i]@, self.envs@[i]@), self.entries@[i]))
    }

    /// The cache's invariant: one entry per key, and no key twice.
    pub closed spec fn wf(&self) -> bool {
        &&& self.services@.len() == self.entries@.len()
        &&& self.envs@.len() == self.entries@.len()
        &&& keys_distinct(self.pairs())
    }
}

impl View for TelemetryClientCache {
    type V = Map<(Seq<char>, Seq<char>), CacheEntry>;

    closed spec fn view(&self) -> Map<(Seq<char>, Seq<char>), CacheEntry> {
        assoc_map(self.pairs())
    }
}

impl TelemetryClientCache {
    /// No client yet.
    pub fn new() -> (res: Self)
        ensures
            res.wf(),
            res@ == Map::<(Seq<char>, Seq<char>), CacheEntry>::empty(),
    {
        let res = TelemetryClientCache { services: Vec::new(), envs: Vec::new(), entries: Vec::new() };
        assert(res@ =~= Map::<(Seq<char>, Seq<char>), CacheEntry>::empty());
        res
    }

    /// The index of (service, env), if it is cached.
    fn find(&self, service: &str, env: &str) -> (res: Option<usize>)
        requires
            self.wf(),
        ensures
            match res {
                Some(i) => i < self.entries@.len() && self.pairs()[i as int].0 == (service@, env@),
                None => !has_key(self.pairs(), (service@, env@)),
            },
    {
        let mut i: usize = 0;
        while i < self.entries.len()
            invariant
                self.wf(),
                i <= self.entries@.len(),
                forall|j: int| 0 <= j < i ==> self.pairs()[j].0 != (service@, env@),
            decreases self.entries@.len() - i,
        {
            if str_eq(self.services[i].as_str(), service) && str_eq(self.envs[i].as_str(), env) {
                return Some(i);
            }
            i = i + 1;
        }
        None
    }

    /// Replaces the entry at index `i`.
    fn set_entry(&mut self, i: usize, e: CacheEntry)
        requires
            old(self).wf(),
            i < old(self).entries@.len(),
        ensures
            final(self).wf(),
            final(self)@ == old(self)@.insert(old(self).pairs()[i as int].0, e),
    {
        let ghost before = self.pairs();
        self.entries.set(i, e);
        proof {
            assert(self.pairs() =~= before.update(i as int, (before[i as int].0, e)));
            lemma_assoc_map_update(before, i as int, e);
        }
    }

    /// The cached client of (service, env), if any, marked as used at `now`.
    pub fn get_existing(&mut self, service: &str, env: &str, now: u64) -> (res: Option<u64>)
        requires
            old(self).wf(),
        ensures
            final(self).wf(),
            old(self)@.contains_key((service@, env@)) ==> {
                &&& res == Some(old(self)@[(service@, env@)].client)
                &&& final(self)@ == old(self)@.insert(
                    (service@, env@),
                    CacheEntry { client: old(self)@[(service@, env@)].client, last_used_ms: now },
                )
            },
            !old(self)@.contains_key((service@, env@)) ==> res is None && final(self)@ == old(self)@,
    {
        match self.find(service, env) {
            Some(i) => {
                proof {
                    lemma_assoc_map_at(self.pairs(), i as int);
                }
                let client = self.entries[i].client;
                self.set_entry(i, CacheEntry { client, last_used_ms: now });
                Some(client)
            },
            None => None,
        }
    }

    /// The client of (service, env) at `now`: the cached one while it is
    /// active (`is_active` tells, for a cached client), else `new_client`,
    /// which takes its place. Returns the client and whether it is new.
    pub fn get_or_create<F: Fn(u64) -> bool>(
        &mut self,
        service: &str,
        env: &str,
        is_active: F,
        new_client: u64,
        now: u64,
    ) -> (res: (u64, bool))
        requires
            old(self).wf(),
            forall|c: u64| call_requires(is_active, (c,)),
        ensures
            final(self).wf(),
            res.1 ==> res.0 == new_client && final(self)@ == old(self)@.insert(
                (service@, env@),
                CacheEntry { client: new_client, last_used_ms: now },
            ) && (!old(self)@.contains_key((service@, env@)) || call_ensures(
                is_active,
                (old(self)@[(service@, env@)].client,),
                false,
            )),
            !res.1 ==> {
                &&& old(self)@.contains_key((service@, env@))
                &&& call_ensures(is_active, (old(self)@[(service@, env@)].client,), true)
                &&& res.0 == old(self)@[(service@, env@)].client
                &&& final(self)@ == old(self)@.insert(
                    (service@, env@),
                    CacheEntry { client: res.0, last_used_ms: now },
                )
            },
    {
        match self.find(service, env) {
            Some(i) => {
                proof {
                    lemma_assoc_map_at(self.pairs(), i as int);
                }
                let current = self.entries[i].client;
                if is_active(current) {
                    self.set_entry(i, CacheEntry { client: current, last_used_ms: now });
                    (current, false)
                } else {
                    self.set_entry(i, CacheEntry { client: new_client, last_used_ms: now });
                    (new_client, true)
                }
            },
            None => {
                let ghost before = self.pairs();
                let ghost k = (service@, env@);
                let e = CacheEntry { client: new_client, last_used_ms: now };
                self.services.push(service.to_owned());
                self.envs.push(env.to_owned());
                self.entries.push(e);
                proof {
                    assert(self.pairs() =~= before.push((k, e)));
                    lemma_assoc_map_push(before, k, e);
                }
                (new_client, true)
            },
        }
    }

    /// Drops, at `now`, every client unused for `ttl_ms` or longer.
    pub fn evict_idle(&mut self, now: u64, ttl_ms: u64)
        requires
            old(self).wf(),
        ensures
            final(self).wf(),
            final(self)@ == Map::new(
                |k: (Seq<char>, Seq<char>)|
                    old(self)@.contains_key(k) && !idle_too_long(old(self)@[k], now, ttl_ms),
                |k: (Seq<char>, Seq<char>)| old(self)@[k],
            ),
    {
        let ghost old_pairs = self.pairs();
        let ghost old_map = self@;
        let mut services: Vec<String> = Vec::new();
        let mut envs: Vec<String> = Vec::new();
        let mut entries: Vec<CacheEntry> = Vec::new();
        let mut i: usize = 0;
        let ghost mut kept: Seq<((Seq<char>, Seq<char>), CacheEntry)> = Seq::empty();
        proof {
            assert(assoc_map(kept) =~= Map::new(
                |k: (Seq<char>, Seq<char>)| exists|j: int| 0 <= j < 0 && old_pairs[j].0 == k,
                |k: (Seq<char>, Seq<char>)| old_map[k],
            ));
        }
        while i < self.entries.len()
            invariant
                self.wf(),
                self.pairs() == old_pairs,
                self@ == old_map,
                i <= old_pairs.len(),
                services@.len() == kept.len(),
                envs@.len() == kept.len(),
                entries@.len() == kept.len(),
                kept == Seq::new(entries@.len(), |a: int| ((services@[a]@, envs@[a]@), entries@[a])),
                keys_distinct(kept),
                forall|k: (Seq<char>, Seq<char>)|
                    has_key(kept, k) ==> exists|j: int| 0 <= j < i && old_pairs[j].0 == k,
                assoc_map(kept) == Map::new(
                    |k: (Seq<char>, Seq<char>)|
                        exists|j: int|
                            0 <= j < i && old_pairs[j].0 == k && !idle_too_long(
                                old_pairs[j].1,
                                now,
                                ttl_ms,
                            ),
                    |k: (Seq<char>, Seq<char>)| old_map[k],
                ),
            decreases old_pairs.len() - i,
        {
            proof {
                lemma_assoc_map_at(old_pairs, i as int);
            }
            let e = self.entries[i];
            let idle = now >= e.last_used_ms && now - e.last_used_ms >= ttl_ms;
            let ghost before = kept;
            let ghost k = old_pairs[i as int].0;
            if !idle {
                proof {
                    assert(!has_key(before, k)) by {
                        if has_key(before, k) {
                            let j = choose|j: int| 0 <= j < i && old_pairs[j].0 == k;
                            assert(old_pairs[j].0 == old_pairs[i as int].0);
                        }
                    }
                    lemma_assoc_map_push(before, k, e);
                }
                services.push(self.services[i].clone());
                envs.push(self.envs[i].clone());
                entries.push(e);
                proof {
                    kept = before.push((k, e));
                    assert(kept =~= Seq::new(entries@.len(), |a: int| ((services@[a]@, envs@[a]@), entries@[a])));
                }
            }
            proof {
                assert forall|x: (Seq<char>, Seq<char>)| has_key(kept, x) implies exists|j: int|
                    0 <= j < i + 1 && old_pairs[j].0 == x by {
                    if has_key(before, x) {
                        let j = choose|j: int| 0 <= j < i && old_pairs[j].0 == x;
                        assert(0 <= j < i + 1 && old_pairs[j].0 == x);
                    } else {
                        assert(old_pairs[i as int].0 == x);
                    }
                }
                assert(assoc_map(kept) =~= Map::new(
                    |x: (Seq<char>, Seq<char>)|
                        exists|j: int|
                            0 <= j < i + 1 && old_pairs[j].0 == x && !idle_too_long(
                                old_pairs[j].1,
                                now,
                                ttl_ms,
                            ),
                    |x: (Seq<char>, Seq<char>)| old_map[x],
                ));
            }
            i = i + 1;
        }
        self.services = services;
        self.envs = envs;
        self.entries = entries;
        proof {
            assert(self.pairs() =~= kept);
            assert(self@ =~= Map::new(
                |k: (Seq<char>, Seq<char>)|
                    old_map.contains_key(k) && !idle_too_long(old_map[k], now, ttl_ms),
                |k: (Seq<char>, Seq<char>)| old_map[k],
            )) by {
                assert forall|k: (Seq<char>, Seq<char>)|
                    (exists|j: int|
                        0 <= j < old_pairs.len() && old_pairs[j].0 == k && !idle_too_long(
                            old_pairs[j].1,
                            now,
                            ttl_ms,
                        )) <==> (old_map.contains_key(k) && !idle_too_long(old_map[k], now, ttl_ms)) by {
                    if old_map.contains_key(k) {
                        let j = choose|j: int| 0 <= j < old_pairs.len() && old_pairs[j].0 == k;
                        lemma_assoc_map_at(old_pairs, j);
                    }
                    if exists|j: int|
                        0 <= j < old_pairs.len() && old_pairs[j].0 == k && !idle_too_long(
                            old_pairs[j].1,
                            now,
                            ttl_ms,
                        ) {
                        let j = choose|j: int|
                            0 <= j < old_pairs.len() && old_pairs[j].0 == k && !idle_too_long(
                                old_pairs[j].1,
                                now,
                                ttl_ms,
                            );
                        lemma_assoc_map_at(old_pairs, j);
                    }
                }
            }
        }
    }

    /// Forgets the client of (service, env), but only when it is still
    /// `expected`: a client that has been replaced meanwhile stays.
    pub fn remove_if_same(&mut self, service: &str, env: &str, expected: u64)
        requires
            old(self).wf(),
        ensures
            final(self).wf(),
            old(self)@.contains_key((service@, env@)) && old(self)@[(service@, env@)].client == expected
                ==> final(self)@ == old(self)@.remove((service@, env@)),
            !(old(self)@.contains_key((service@, env@)) && old(self)@[(service@, env@)].client
                == expected) ==> final(self)@ == old(self)@,
    {
        match self.find(service, env) {
            Some(i) => {
                proof {
                    lemma_assoc_map_at(self.pairs(), i as int);
                }
                if self.entries[i].client == expected {
                    let ghost before = self.pairs();
                    self.services.remove(i);
                    self.envs.remove(i);
                    self.entries.remove(i);
                    proof {
                        assert(self.pairs() =~= before.remove(i as int));
                        lemma_assoc_map_remove(before, i as int);
                    }
                }
            },
            None => {},
        }
    }
}


} // verus!
