//! The counts the sidecar reports about its sessions, runtimes and
//! applications.
use vstd::prelude::*;

verus! {

/// One runtime's applications: how many, and how many of them hold a
/// remote-config subscription.
#[derive(Debug, Clone, Copy, PartialEq, Eq, Structural)]
pub struct RuntimeSummary {
    pub applications: usize,
    pub remote_config_clients: usize,
}

/// The session, runtime and application counts of the sidecar.
#[derive(Debug, Clone, Copy, PartialEq, Eq, Structural)]
pub struct SessionTotals {
    pub sessions: u32,
    pub session_counter_size: u32,
    pub runtimes: u32,
    pub active_apps: u32,
    pub remote_config_clients: u32,
}

/// The sum over runtimes of their applications (`apps`) or of their
/// remote-config subscriptions, each term cut to 32 bits as it is counted.
pub open spec fn runtime_sum(rs: Seq<RuntimeSummary>, apps: bool) -> int
    decreases rs.len(),
{
    if rs.len() == 0 {
        0
    } else {
        runtime_sum(rs.drop_last(), apps) + (if apps {
            rs.last().applications as u32
        } else {
            rs.last().remote_config_clients as u32
        }) as int
    }
}

/// The number of runtimes of every session (each count cut to 32 bits).
pub open spec fn total_runtimes(sessions: Seq<Seq<RuntimeSummary>>) -> int
    decreases sessions.len(),
{
    if sessions.len() == 0 {
        0
    } else {
        total_runtimes(sessions.drop_last()) + (sessions.last().len() as u32) as int
    }
}

/// The sum over sessions of their runtime sums.
pub open spec fn total_over_sessions(sessions: Seq<Seq<RuntimeSummary>>, apps: bool) -> int
    decreases sessions.len(),
{
    if sessions.len() == 0 {
        0
    } else {
        total_over_sessions(sessions.drop_last(), apps) + runtime_sum(sessions.last(), apps)
    }
}

proof fn lemma_runtime_sum_prefix(rs: Seq<RuntimeSummary>, n: int, apps: bool)
    requires
        0 <= n <= rs.len(),
    ensures
        0 <= runtime_sum(rs.take(n), apps) <= runtime_sum(rs, apps),
    decreases rs.len(),
{
    if n == rs.len() {
        assert(rs.take(n) =~= rs);
        lemma_runtime_sum_nonneg(rs, apps);
    } else {
        assert(rs.drop_last().take(n) =~= rs.take(n));
        lemma_runtime_sum_prefix(rs.drop_last(), n, apps);
    }
}

proof fn lemma_runtime_sum_nonneg(rs: Seq<RuntimeSummary>, apps: bool)
    ensures
        runtime_sum(rs, apps) >= 0,
    decreases rs.len(),
{
    if rs.len() > 0 {
        lemma_runtime_sum_nonneg(rs.drop_last(), apps);
    }
}

proof fn lemma_sessions_prefix(s: Seq<Seq<RuntimeSummary>>, n: int, apps: bool)
    requires
        0 <= n <= s.len(),
    ensures
        0 <= total_over_sessions(s.take(n), apps) <= total_over_sessions(s, apps),
        0 <= total_runtimes(s.take(n)) <= total_runtimes(s),
    decreases s.len(),
{
    if n == s.len() {
        assert(s.take(n) =~= s);
        lemma_sessions_nonneg(s, apps);
    } else {
        assert(s.drop_last().take(n) =~= s.take(n));
        lemma_sessions_prefix(s.drop_last(), n, apps);
        lemma_runtime_sum_nonneg(s.last(), apps);
    }
}

proof fn lemma_sessions_nonneg(s: Seq<Seq<RuntimeSummary>>, apps: bool)
    ensures
        total_over_sessions(s, apps) >= 0,
        total_runtimes(s) >= 0,
    decreases s.len(),
{
    if s.len() > 0 {
        lemma_sessions_nonneg(s.drop_last(), apps);
        lemma_runtime_sum_nonneg(s.last(), apps);
    }
}

/// The sum over one session's runtimes.
fn sum_runtimes(rs: &Vec<RuntimeSummary>, apps: bool) -> (res: u32)
    requires
        runtime_sum(rs@, apps) <= u32::MAX,
    ensures
        res == runtime_sum(rs@, apps),
{
    let mut total: u32 = 0;
    let mut i: usize = 0;
    while i < rs.len()
        invariant
            i <= rs@.len(),
            runtime_sum(rs@, apps) <= u32::MAX,
            total == runtime_sum(rs@.take(i as int), apps),
        decreases rs@.len() - i,
    {
        proof {
            assert(rs@.take(i + 1).drop_last() =~= rs@.take(i as int));
            lemma_runtime_sum_prefix(rs@, i + 1, apps);
        }
        let term = if apps {
            rs[i].applications as u32
        } else {
            rs[i].remote_config_clients as u32
        };
        total = total + term;
        i = i + 1;
    }
    assert(rs@.take(rs@.len() as int) =~= rs@);
    total
}

/// The counts over all sessions: how many sessions, runtimes, applications
/// and remote-config subscriptions, and how many sessions the connection
/// counter holds.
pub fn session_totals(sessions: &Vec<Vec<RuntimeSummary>>, session_counter_size: usize) -> (res: SessionTotals)
    requires
        total_runtimes(sessions@.map_values(|v: Vec<RuntimeSummary>| v@)) <= u32::MAX,
        total_over_sessions(sessions@.map_values(|v: Vec<RuntimeSummary>| v@), true) <= u32::MAX,
        total_over_sessions(sessions@.map_values(|v: Vec<RuntimeSummary>| v@), false) <= u32::MAX,
    ensures
        res.sessions == sessions@.len() as u32,
        res.session_counter_size == session_counter_size as u32,
        res.runtimes == total_runtimes(sessions@.map_values(|v: Vec<RuntimeSummary>| v@)),
        res.active_apps == total_over_sessions(sessions@.map_values(|v: Vec<RuntimeSummary>| v@), true),
        res.remote_config_clients == total_over_sessions(
            sessions@.map_values(|v: Vec<RuntimeSummary>| v@),
            false,
        ),
{
    let ghost all = sessions@.map_values(|v: Vec<RuntimeSummary>| v@);
    let mut runtimes: u32 = 0;
    let mut apps: u32 = 0;
    let mut rc: u32 = 0;
    let mut i: usize = 0;
    while i < sessions.len()
        invariant
            i <= sessions@.len(),
            all == sessions@.map_values(|v: Vec<RuntimeSummary>| v@),
            total_runtimes(all) <= u32::MAX,
            total_over_sessions(all, true) <= u32::MAX,
            total_over_sessions(all, false) <= u32::MAX,
            runtimes == total_runtimes(all.take(i as int)),
            apps == total_over_sessions(all.take(i as int), true),
            rc == total_over_sessions(all.take(i as int), false),
        decreases sessions@.len() - i,
    {
        proof {
            assert(all.take(i + 1).drop_last() =~= all.take(i as int));
            assert(all.take(i + 1).last() == sessions@[i as int]@);
            lemma_sessions_prefix(all, i + 1, true);
            lemma_sessions_prefix(all, i + 1, false);
            lemma_sessions_nonneg(all.take(i as int), true);
            lemma_runtime_sum_nonneg(sessions@[i as int]@, true);
            lemma_runtime_sum_nonneg(sessions@[i as int]@, false);
        }
        let rs = &sessions[i];
        runtimes = runtimes + rs.len() as u32;
        apps = apps + sum_runtimes(rs, true);
        rc = rc + sum_runtimes(rs, false);
        i = i + 1;
    }
    assert(all.take(sessions@.len() as int) =~= all);
    SessionTotals {
        sessions: sessions.len() as u32,
        session_counter_size: session_counter_size as u32,
        runtimes,
        active_apps: apps,
        remote_config_clients: rc,
    }
}

/// The telemetry counts: how many workers are live, how many metric
/// contexts their clients registered, and how many stats queries failed.
#[derive(Debug, Clone, Copy, PartialEq, Eq, Structural)]
pub struct TelemetryTotals {
    pub active_telemetry_clients: u32,
    pub telemetry_metrics_contexts: u32,
    pub telemetry_worker_errors: u32,
}

/// The telemetry counts from the clients (`None` for a client already
/// stopped, else its number of metric contexts), the concentrators' workers
/// and the failed stats queries.
pub fn telemetry_totals(clients: &[Option<usize>], concentrator_workers: usize, stats_errors: u32) -> (res:
    TelemetryTotals)
    requires
        clients@.len() + concentrator_workers <= usize::MAX,
        contexts_total(clients@) <= u32::MAX,
    ensures
        res.active_telemetry_clients == (live_clients(clients@) + concentrator_workers) as u32,
        res.telemetry_metrics_contexts == contexts_total(clients@),
        res.telemetry_worker_errors == stats_errors,
{
    let mut live: usize = 0;
    let mut contexts: u32 = 0;
    let mut i: usize = 0;
    while i < clients.len()
        invariant
            i <= clients@.len(),
            live == live_clients(clients@.take(i as int)),
            live <= i,
            contexts == contexts_total(clients@.take(i as int)),
            contexts_total(clients@) <= u32::MAX,
        decreases clients@.len() - i,
    {
        proof {
            assert(clients@.take(i + 1).drop_last() =~= clients@.take(i as int));
            lemma_contexts_prefix(clients@, i + 1);
        }
        match clients[i] {
            Some(n) => {
                live = live + 1;
                contexts = contexts + n as u32;
            },
            None => {},
        }
        i = i + 1;
    }
    assert(clients@.take(clients@.len() as int) =~= clients@);
    TelemetryTotals {
        active_telemetry_clients: (live + concentrator_workers) as u32,
        telemetry_metrics_contexts: contexts,
        telemetry_worker_errors: stats_errors,
    }
}

/// How many clients are live.
pub open spec fn live_clients(c: Seq<Option<usize>>) -> int
    decreases c.len(),
{
    if c.len() == 0 {
        0
    } else {
        live_clients(c.drop_last()) + if c.last() is Some {
            1int
        } else {
            0int
        }
    }
}

/// The metric contexts of the live clients (each cut to 32 bits).
pub open spec fn contexts_total(c: Seq<Option<usize>>) -> int
    decreases c.len(),
{
    if c.len() == 0 {
        0
    } else {
        contexts_total(c.drop_last()) + match c.last() {
            Some(n) => (n as u32) as int,
            None => 0int,
        }
    }
}

proof fn lemma_contexts_prefix(c: Seq<Option<usize>>, n: int)
    requires
        0 <= n <= c.len(),
    ensures
        0 <= contexts_total(c.take(n)) <= contexts_total(c),
    decreases c.len(),
{
    if n == c.len() {
        assert(c.take(n) =~= c);
        lemma_contexts_nonneg(c);
    } else {
        assert(c.drop_last().take(n) =~= c.take(n));
        lemma_contexts_prefix(c.drop_last(), n);
    }
}

proof fn lemma_contexts_nonneg(c: Seq<Option<usize>>)
    ensures
        contexts_total(c) >= 0,
    decreases c.len(),
{
    if c.len() > 0 {
        lemma_contexts_nonneg(c.drop_last());
    }
}

} // verus!
