//! Scheduling an application's telemetry actions on its shared client:
//! what is forwarded, what is deduplicated, and when the client stops.
use vstd::prelude::*;
use crate::text::str_eq;
use crate::evp::endpoint::{Endpoint, EndpointView};
use crate::evp::delivery::endpoint_with_path_spec;
use crate::evp::config::opt_endpoint_view;
use crate::ffe_flusher::{exposure_endpoint, EVP_EXPOSURES_PATH};

verus! {

/// The service a telemetry client is kept under for an application that
/// named none.
pub const UNKNOWN_SERVICE: &'static str = "unknown-service";

/// The env a telemetry client is kept under for an application that named
/// none.
pub const UNKNOWN_ENV: &'static str = "none";

/// The (service, env) under which an application's telemetry client is kept:
/// the names the application gave, `UNKNOWN_SERVICE` and `UNKNOWN_ENV` for
/// those it did not.
pub fn telemetry_client_key(service_name: &Option<String>, env: &Option<String>) -> (res: (String, String))
    ensures
        res.0@ == match service_name {
            Some(s) => s@,
            None => UNKNOWN_SERVICE@,
        },
        res.1@ == match env {
            Some(e) => e@,
            None => UNKNOWN_ENV@,
        },
{
    let service = match service_name {
        Some(s) => s.clone(),
        None => UNKNOWN_SERVICE.to_owned(),
    };
    let env = match env {
        Some(e) => e.clone(),
        None => UNKNOWN_ENV.to_owned(),
    };
    (service, env)
}

/// How an action sent by a tracer is handled when it arrives.
#[derive(Debug, Clone, Copy, PartialEq, Eq, Structural)]
pub enum EnqueuedKind {
    /// A batch of feature-flag exposures, posted to the Agent's EVP proxy.
    FfeExposures,
    /// Feature-flag evaluation metrics, posted to the OTLP metrics endpoint.
    FfeEvaluationMetrics,
    /// Anything else: scheduled on the application's telemetry client.
    Telemetry,
}

/// Where the actions of one enqueued batch go, by their index in the batch.
#[derive(Debug)]
pub struct ActionRouting {
    /// Where exposures are posted, when the session has an endpoint to derive it from.
    pub exposure_endpoint: Option<Endpoint>,
    /// Exposure batches to post (none without an exposure endpoint).
    pub exposures: Vec<usize>,
    /// Evaluation metrics to post (none without an OTLP metrics endpoint).
    pub evaluation_metrics: Vec<usize>,
    /// The rest, in their order, for the telemetry client.
    pub scheduled: Vec<usize>,
}

/// The indices, in order, of the first `n` actions that are of kind `k`.
pub open spec fn kind_indices(kinds: Seq<EnqueuedKind>, k: EnqueuedKind, n: nat) -> Seq<usize>
    decreases n,
{
    if n == 0 {
        Seq::empty()
    } else if kinds[n - 1] == k {
        kind_indices(kinds, k, (n - 1) as nat).push((n - 1) as usize)
    } else {
        kind_indices(kinds, k, (n - 1) as nat)
    }
}

/// The exposure endpoint of the session endpoint `base`, if it has one that
/// it can be derived from.
pub open spec fn exposure_destination(base: Option<EndpointView>) -> Option<EndpointView> {
    match base {
        Some(b) => match endpoint_with_path_spec(b, EVP_EXPOSURES_PATH@) {
            Ok(e) => Some(e),
            Err(_) => None,
        },
        None => None,
    }
}

/// Splits an enqueued batch: feature-flag exposures are posted to the
/// exposure endpoint derived from the session's endpoint, evaluation
/// metrics to the OTLP metrics endpoint, and both are dropped when their
/// endpoint is missing; the other actions keep their order and go to the
/// application's telemetry client.
pub fn route_enqueued_actions(
    kinds: &Vec<EnqueuedKind>,
    session_endpoint: &Option<Endpoint>,
    has_otlp_endpoint: bool,
) -> (res: ActionRouting)
    ensures
        opt_endpoint_view(res.exposure_endpoint) == exposure_destination(opt_endpoint_view(*session_endpoint)),
        res.exposures@ == (if res.exposure_endpoint is Some {
            kind_indices(kinds@, EnqueuedKind::FfeExposures, kinds@.len())
        } else {
            Seq::empty()
        }),
        res.evaluation_metrics@ == (if has_otlp_endpoint {
            kind_indices(kinds@, EnqueuedKind::FfeEvaluationMetrics, kinds@.len())
        } else {
            Seq::empty()
        }),
        res.scheduled@ == kind_indices(kinds@, EnqueuedKind::Telemetry, kinds@.len()),
{
    let dest = match session_endpoint {
        Some(b) => exposure_endpoint(b),
        None => None,
    };
    let mut exposures: Vec<usize> = Vec::new();
    let mut evaluation_metrics: Vec<usize> = Vec::new();
    let mut scheduled: Vec<usize> = Vec::new();
    let mut i: usize = 0;
    while i < kinds.len()
        invariant
            i <= kinds@.len(),
            exposures@ == (if dest is Some {
                kind_indices(kinds@, EnqueuedKind::FfeExposures, i as nat)
            } else {
                Seq::empty()
            }),
            evaluation_metrics@ == (if has_otlp_endpoint {
                kind_indices(kinds@, EnqueuedKind::FfeEvaluationMetrics, i as nat)
            } else {
                Seq::empty()
            }),
            scheduled@ == kind_indices(kinds@, EnqueuedKind::Telemetry, i as nat),
        decreases kinds@.len() - i,
    {
        match kinds[i] {
            EnqueuedKind::FfeExposures => {
                if dest.is_some() {
                    exposures.push(i);
                }
            },
            EnqueuedKind::FfeEvaluationMetrics => {
                if has_otlp_endpoint {
                    evaluation_metrics.push(i);
                }
            },
            EnqueuedKind::Telemetry => {
                scheduled.push(i);
            },
        }
        i = i + 1;
    }
    ActionRouting { exposure_endpoint: dest, exposures, evaluation_metrics, scheduled }
}

/// What the shared telemetry client of an application looked like when the
/// caller locked it.
#[derive(Debug, Clone, Copy, PartialEq, Eq, Structural)]
pub enum ClientState {
    /// The cache entry holds no client.
    Missing,
    /// The client was marked as stopping.
    Stopping,
    /// The client takes actions.
    Ready,
}

/// What a caller that found a client does next.
#[derive(Debug, Clone, Copy, PartialEq, Eq, Structural)]
pub enum AcquireStep {
    /// Look the client up again: the entry was replaced meanwhile.
    Retry,
    /// Go on with this client.
    Proceed,
}

/// A stop marks a client before releasing it. A caller that locks a missing
/// or stopping client looks it up again (the cache entry is replaced
/// atomically), unless its own actions stop the application anyway.
pub fn acquire_step(remove_client: bool, client: ClientState) -> (res: AcquireStep)
    ensures
        (res == AcquireStep::Retry) <==> (!remove_client && client != ClientState::Ready),
{
    if !remove_client && (client == ClientState::Missing || client == ClientState::Stopping) {
        AcquireStep::Retry
    } else {
        AcquireStep::Proceed
    }
}

/// What an action does, as far as scheduling is concerned.
pub enum ActionKind {
    /// Reports an integration (identified by its key).
    AddIntegration(String),
    /// Names a PHP composer file to read dependencies from.
    ComposerFile(String),
    /// Reports configuration.
    AddConfig,
    /// Reports endpoints.
    AddEndpoint,
    /// Stops the application.
    Stop,
    /// A point of the metric `name`; `with_definition` when the action
    /// carries the metric's definition, for a client that lacks it.
    AddMetricPoint { name: String, with_definition: bool },
    /// Anything else.
    Other,
}

/// Spec view of an [`ActionKind`].
pub enum ActionKindView {
    AddIntegration(Seq<char>),
    ComposerFile(Seq<char>),
    AddConfig,
    AddEndpoint,
    Stop,
    AddMetricPoint { name: Seq<char>, with_definition: bool },
    Other,
}

impl View for ActionKind {
    type V = ActionKindView;

    open spec fn view(&self) -> ActionKindView {
        match self {
            ActionKind::AddIntegration(k) => ActionKindView::AddIntegration(k@),
            ActionKind::ComposerFile(p) => ActionKindView::ComposerFile(p@),
            ActionKind::AddConfig => ActionKindView::AddConfig,
            ActionKind::AddEndpoint => ActionKindView::AddEndpoint,
            ActionKind::Stop => ActionKindView::Stop,
            ActionKind::AddMetricPoint { name, with_definition } => ActionKindView::AddMetricPoint {
                name: name@,
                with_definition: *with_definition,
            },
            ActionKind::Other => ActionKindView::Other,
        }
    }
}

/// An action waiting to be scheduled: the action itself, its kind, and
/// whether a freshly created client was already seeded with it.
pub struct PendingAction<A> {
    pub action: A,
    pub kind: ActionKind,
    pub seeded: bool,
}

/// Spec view of a [`PendingAction`].
pub struct PendingView<A> {
    pub action: A,
    pub kind: ActionKindView,
    pub seeded: bool,
}

impl<A> View for PendingAction<A> {
    type V = PendingView<A>;

    open spec fn view(&self) -> PendingView<A> {
        PendingView { action: self.action, kind: self.kind@, seeded: self.seeded }
    }
}

/// The views of a sequence of pending actions.
pub open spec fn pending_views<A>(s: Seq<PendingAction<A>>) -> Seq<PendingView<A>> {
    Seq::new(s.len(), |i: int| s[i]@)
}

/// The strings of `v`, as a set.
pub open spec fn string_set(v: Seq<String>) -> Set<Seq<char>> {
    Set::new(|k: Seq<char>| exists|i: int| 0 <= i < v.len() && v[i]@ == k)
}

/// Whether `v` holds `s`.
fn contains_str(v: &Vec<String>, s: &str) -> (res: bool)
    ensures
        res == string_set(v@).contains(s@),
{
    let mut i: usize = 0;
    while i < v.len()
        invariant
            i <= v@.len(),
            forall|j: int| 0 <= j < i ==> v@[j]@ != s@,
        decreases v@.len() - i,
    {
        if str_eq(v[i].as_str(), s) {
            return true;
        }
        i = i + 1;
    }
    false
}

/// What an application's telemetry client has already reported.
pub struct SharedTelemetryInfo {
    integrations: Vec<String>,
    composer_paths: Vec<String>,
    config_sent: bool,
    last_endpoints_push_ms: Option<u64>,
}

/// Spec view of [`SharedTelemetryInfo`].
pub struct SharedInfoView {
    pub integrations: Set<Seq<char>>,
    pub composer_paths: Set<Seq<char>>,
    pub config_sent: bool,
    pub last_endpoints_push_ms: Option<u64>,
}

impl View for SharedTelemetryInfo {
    type V = SharedInfoView;

    closed spec fn view(&self) -> SharedInfoView {
        SharedInfoView {
            integrations: string_set(self.integrations@),
            composer_paths: string_set(self.composer_paths@),
            config_sent: self.config_sent,
            last_endpoints_push_ms: self.last_endpoints_push_ms,
        }
    }
}

/// What one scheduling pass decided.
pub struct Scheduled<A> {
    /// Actions to hand to the client, in order.
    pub to_process: Vec<A>,
    /// New composer files to read, in order.
    pub composer_paths: Vec<String>,
    /// Whether what the client has reported changed (its shared file is rewritten).
    pub buffered_info_changed: bool,
    /// Whether the application stopped (the client is released afterwards).
    pub remove_client: bool,
}

/// Spec view of [`Scheduled`].
pub struct ScheduledView<A> {
    pub to_process: Seq<A>,
    pub composer_paths: Seq<Seq<char>>,
    pub buffered_info_changed: bool,
    pub remove_client: bool,
}

impl<A> View for Scheduled<A> {
    type V = ScheduledView<A>;

    open spec fn view(&self) -> ScheduledView<A> {
        ScheduledView {
            to_process: self.to_process@,
            composer_paths: self.composer_paths@.map_values(|p: String| p@),
            buffered_info_changed: self.buffered_info_changed,
            remove_client: self.remove_client,
        }
    }
}

/// One action's effect at time `now`. A client just created skips what it
/// was seeded with; an integration or composer file already reported is
/// dropped; configuration and endpoints are forwarded and recorded; a stop
/// is forwarded and releases the client; anything else is forwarded.
pub open spec fn schedule_step<A>(
    info: SharedInfoView,
    out: ScheduledView<A>,
    p: PendingView<A>,
    created: bool,
    now: u64,
) -> (SharedInfoView, ScheduledView<A>) {
    if created && p.seeded {
        (info, out)
    } else {
        match p.kind {
            ActionKindView::AddIntegration(k) => if info.integrations.contains(k) {
                (info, out)
            } else {
                (
                    SharedInfoView { integrations: info.integrations.insert(k), ..info },
                    ScheduledView {
                        to_process: out.to_process.push(p.action),
                        buffered_info_changed: true,
                        ..out
                    },
                )
            },
            ActionKindView::ComposerFile(path) => if info.composer_paths.contains(path) {
                (info, out)
            } else {
                (
                    SharedInfoView { composer_paths: info.composer_paths.insert(path), ..info },
                    ScheduledView {
                        composer_paths: out.composer_paths.push(path),
                        buffered_info_changed: true,
                        ..out
                    },
                )
            },
            ActionKindView::AddConfig => (
                SharedInfoView { config_sent: true, ..info },
                ScheduledView {
                    to_process: out.to_process.push(p.action),
                    buffered_info_changed: true,
                    ..out
                },
            ),
            ActionKindView::AddEndpoint => (
                SharedInfoView { last_endpoints_push_ms: Some(now), ..info },
                ScheduledView {
                    to_process: out.to_process.push(p.action),
                    buffered_info_changed: true,
                    ..out
                },
            ),
            ActionKindView::Stop => (
                info,
                ScheduledView { to_process: out.to_process.push(p.action), remove_client: true, ..out },
            ),
            ActionKindView::AddMetricPoint { .. } => (
                info,
                ScheduledView { to_process: out.to_process.push(p.action), ..out },
            ),
            ActionKindView::Other => (
                info,
                ScheduledView { to_process: out.to_process.push(p.action), ..out },
            ),
        }
    }
}

/// Nothing decided yet.
pub open spec fn nothing_scheduled<A>() -> ScheduledView<A> {
    ScheduledView {
        to_process: Seq::empty(),
        composer_paths: Seq::empty(),
        buffered_info_changed: false,
        remove_client: false,
    }
}

/// The effect of `actions`, one after the other.
pub open spec fn schedule_all<A>(
    info: SharedInfoView,
    actions: Seq<PendingView<A>>,
    created: bool,
    now: u64,
) -> (SharedInfoView, ScheduledView<A>)
    decreases actions.len(),
{
    if actions.len() == 0 {
        (info, nothing_scheduled())
    } else {
        let prev = schedule_all(info, actions.drop_last(), created, now);
        schedule_step(prev.0, prev.1, actions.last(), created, now)
    }
}

impl SharedTelemetryInfo {
    /// Nothing reported yet.
    pub fn new() -> (res: Self)
        ensures
            res@ == (SharedInfoView {
                integrations: Set::empty(),
                composer_paths: Set::empty(),
                config_sent: false,
                last_endpoints_push_ms: None,
            }),
    {
        let res = SharedTelemetryInfo {
            integrations: Vec::new(),
            composer_paths: Vec::new(),
            config_sent: false,
            last_endpoints_push_ms: None,
        };
        assert(res@.integrations =~= Set::<Seq<char>>::empty());
        assert(res@.composer_paths =~= Set::<Seq<char>>::empty());
        res
    }

    /// Whether configuration was reported.
    pub fn config_sent(&self) -> (res: bool)
        ensures
            res == self@.config_sent,
    {
        self.config_sent
    }

    /// When endpoints were last reported, if ever.
    pub fn last_endpoints_push_ms(&self) -> (res: Option<u64>)
        ensures
            res == self@.last_endpoints_push_ms,
    {
        self.last_endpoints_push_ms
    }

    /// Whether the integration `key` was reported.
    pub fn has_integration(&self, key: &str) -> (res: bool)
        ensures
            res == self@.integrations.contains(key@),
    {
        contains_str(&self.integrations, key)
    }

    /// Whether the composer file `path` was read.
    pub fn has_composer_path(&self, path: &str) -> (res: bool)
        ensures
            res == self@.composer_paths.contains(path@),
    {
        contains_str(&self.composer_paths, path)
    }

    /// Schedules `actions` at time `now` on a client (`created`: just
    /// created, and seeded): see [`schedule_step`].
    pub fn schedule<A>(&mut self, actions: Vec<PendingAction<A>>, created: bool, now: u64) -> (res:
        Scheduled<A>)
        ensures
            (final(self)@, res@) == schedule_all(
                old(self)@,
                pending_views(actions@),
                created,
                now,
            ),
    {
        let ghost all = pending_views(actions@);
        let mut rest = actions;
        let mut out = Scheduled {
            to_process: Vec::new(),
            composer_paths: Vec::new(),
            buffered_info_changed: false,
            remove_client: false,
        };
        let ghost mut done: int = 0;
        proof {
            assert(out.composer_paths@.map_values(|p: String| p@) =~= Seq::<Seq<char>>::empty());
            assert(out@ =~= nothing_scheduled::<A>());
            assert(all.take(0) =~= Seq::<PendingView<A>>::empty());
        }
        while rest.len() > 0
            invariant
                0 <= done <= all.len(),
                rest@.len() == all.len() - done,
                pending_views(rest@) == all.skip(done),
                (self@, out@) == schedule_all(old(self)@, all.take(done), created, now),
            decreases rest@.len(),
        {
            let ghost before_info = self@;
            let ghost before_out = out@;
            let ghost rest_before = rest@;
            let p = rest.remove(0);
            proof {
                assert(pending_views(rest_before)[0] == rest_before[0]@);
                assert(all.skip(done)[0] == all[done]);
                assert(p@ == all[done]);
                assert(all.take(done + 1).drop_last() =~= all.take(done));
                assert(all.take(done + 1).last() == all[done]);
            }
            if !(created && p.seeded) {
                match p.kind {
                    ActionKind::AddIntegration(k) => {
                        if !contains_str(&self.integrations, k.as_str()) {
                            let ghost old_v = self.integrations@;
                            self.integrations.push(k);
                            out.to_process.push(p.action);
                            out.buffered_info_changed = true;
                            proof {
                                lemma_string_set_push(old_v, self.integrations@.last());
                                assert(self.integrations@ =~= old_v.push(self.integrations@.last()));
                            }
                        }
                    },
                    ActionKind::ComposerFile(path) => {
                        if !contains_str(&self.composer_paths, path.as_str()) {
                            let ghost pv = path@;
                            let ghost old_v = self.composer_paths@;
                            let copy = path.clone();
                            self.composer_paths.push(path);
                            out.composer_paths.push(copy);
                            out.buffered_info_changed = true;
                            proof {
                                lemma_string_set_push(old_v, self.composer_paths@.last());
                                assert(self.composer_paths@ =~= old_v.push(self.composer_paths@.last()));
                                assert(out@.composer_paths =~= before_out.composer_paths.push(pv));
                            }
                        }
                    },
                    ActionKind::AddConfig => {
                        self.config_sent = true;
                        out.to_process.push(p.action);
                        out.buffered_info_changed = true;
                    },
                    ActionKind::AddEndpoint => {
                        self.last_endpoints_push_ms = Some(now);
                        out.to_process.push(p.action);
                        out.buffered_info_changed = true;
                    },
                    ActionKind::Stop => {
                        out.to_process.push(p.action);
                        out.remove_client = true;
                    },
                    ActionKind::AddMetricPoint { .. } => {
                        out.to_process.push(p.action);
                    },
                    ActionKind::Other => {
                        out.to_process.push(p.action);
                    },
                }
            }
            proof {
                assert(pending_views(rest@) =~= all.skip(done + 1)) by {
                    assert forall|j: int| 0 <= j < rest@.len() implies #[trigger] pending_views(rest@)[j] == all.skip(done + 1)[j] by {
                        assert(rest@[j] == rest_before[j + 1]);
                        assert(pending_views(rest_before)[j + 1] == all.skip(done)[j + 1]);
                    }
                }
                done = done + 1;
            }
        }
        proof {
            assert(all.take(done) =~= all);
        }
        out
    }
}

/// An integration is forwarded at most once per client: once one is
/// scheduled, the same integration offered again is dropped and changes
/// nothing.
pub proof fn lemma_integration_forwarded_once<A>(
    info: SharedInfoView,
    out: ScheduledView<A>,
    first: PendingView<A>,
    again: PendingView<A>,
    created: bool,
    now: u64,
)
    requires
        first.kind matches ActionKindView::AddIntegration(k) && again.kind == first.kind,
        !(created && first.seeded),
    ensures
        ({
            let after = schedule_step(info, out, first, created, now);
            schedule_step(after.0, after.1, again, created, now) == after
        }),
{
}

/// A stop the client was not seeded with is forwarded, and releases the
/// client.
pub proof fn lemma_stop_releases_client<A>(
    info: SharedInfoView,
    out: ScheduledView<A>,
    p: PendingView<A>,
    created: bool,
    now: u64,
)
    requires
        p.kind == ActionKindView::Stop,
        !(created && p.seeded),
    ensures
        schedule_step(info, out, p, created, now).1.remove_client,
        schedule_step(info, out, p, created, now).1.to_process == out.to_process.push(p.action),
{
}

/// Adding a string to a vector adds it to the vector's set.
proof fn lemma_string_set_push(v: Seq<String>, x: String)
    ensures
        string_set(v.push(x)) == string_set(v).insert(x@),
{
    let w = v.push(x);
    assert forall|k: Seq<char>| string_set(w).contains(k) <==> string_set(v).insert(x@).contains(k) by {
        if string_set(w).contains(k) {
            let j = choose|j: int| 0 <= j < w.len() && w[j]@ == k;
            if j < v.len() {
                assert(w[j] == v[j]);
            }
        }
        if string_set(v).contains(k) {
            let j = choose|j: int| 0 <= j < v.len() && v[j]@ == k;
            assert(w[j] == v[j]);
        }
        if k == x@ {
            assert(w[v.len() as int] == x);
        }
    }
    assert(string_set(w) =~= string_set(v).insert(x@));
}

/// An application's shared telemetry client, as scheduling sees it: what
/// it has reported, the metrics it has definitions of, and whether a stop
/// marked it as stopping.
pub struct AppTelemetryClient {
    pub info: SharedTelemetryInfo,
    pub metrics: Vec<String>,
    pub stopping: bool,
}

/// The metric definitions a client knows after `acts` are offered to it,
/// starting from `metrics`, and the indices of the actions whose definition
/// it took: a metric point that carries the definition of a metric the client
/// lacks registers it.
pub open spec fn register_all<A>(metrics: Set<Seq<char>>, acts: Seq<PendingView<A>>) -> (Set<Seq<char>>, Seq<usize>)
    decreases acts.len(),
{
    if acts.len() == 0 {
        (metrics, Seq::empty())
    } else {
        let prev = register_all(metrics, acts.drop_last());
        match acts.last().kind {
            ActionKindView::AddMetricPoint { name, with_definition } => if with_definition
                && !prev.0.contains(name) {
                (prev.0.insert(name), prev.1.push((acts.len() - 1) as usize))
            } else {
                prev
            },
            _ => prev,
        }
    }
}

/// What scheduling on a present client decided.
pub struct ClientSchedule<A> {
    /// What the client forwards, records and whether it stops.
    pub scheduled: Scheduled<A>,
    /// The actions whose metric definition the client registered, in order.
    pub registered_metrics: Vec<usize>,
}

/// Schedules `actions` at time `now` on the application's shared client:
/// with no client there is nothing to schedule on (`None`, nothing changes).
/// Otherwise the definitions that metric points carry for metrics the
/// client lacks are registered first (see [`register_all`]); then the
/// actions are scheduled as [`SharedTelemetryInfo::schedule`] says, and a
/// stop among them marks the client as stopping.
pub fn schedule_application_actions<A>(
    client: &mut Option<AppTelemetryClient>,
    actions: Vec<PendingAction<A>>,
    created: bool,
    now: u64,
) -> (res: Option<ClientSchedule<A>>)
    ensures
        match (*old(client), *final(client), res) {
            (None, None, None) => true,
            (Some(c0), Some(c1), Some(r)) => {
                &&& (c1.info@, r.scheduled@) == schedule_all(
                    c0.info@,
                    pending_views(actions@),
                    created,
                    now,
                )
                &&& (string_set(c1.metrics@), r.registered_metrics@) == register_all(
                    string_set(c0.metrics@),
                    pending_views(actions@),
                )
                &&& c1.stopping == (c0.stopping || r.scheduled.remove_client)
            },
            _ => false,
        },
{
    match client {
        None => None,
        Some(c) => {
            let ghost m0 = string_set(c.metrics@);
            let ghost info0 = c.info@;
            let ghost stopping0 = c.stopping;
            let ghost all = pending_views(actions@);
            let mut registered: Vec<usize> = Vec::new();
            let mut i: usize = 0;
            proof {
                assert(all.take(0) =~= Seq::<PendingView<A>>::empty());
            }
            while i < actions.len()
                invariant
                    i <= actions@.len(),
                    all == pending_views(actions@),
                    (string_set(c.metrics@), registered@) == register_all(m0, all.take(i as int)),
                    c.info@ == info0,
                    c.stopping == stopping0,
                decreases actions@.len() - i,
            {
                proof {
                    assert(all.take(i + 1).drop_last() =~= all.take(i as int));
                    assert(all.take(i + 1).last() == actions@[i as int]@);
                }
                match &actions[i].kind {
                    ActionKind::AddMetricPoint { name, with_definition } => {
                        if *with_definition && !contains_str(&c.metrics, name.as_str()) {
                            let ghost old_v = c.metrics@;
                            c.metrics.push(name.clone());
                            registered.push(i);
                            proof {
                                lemma_string_set_push(old_v, c.metrics@.last());
                                assert(c.metrics@ =~= old_v.push(c.metrics@.last()));
                            }
                        }
                    },
                    _ => {},
                }
                i = i + 1;
            }
            proof {
                assert(all.take(i as int) =~= all);
            }
            let r = c.info.schedule(actions, created, now);
            if r.remove_client {
                c.stopping = true;
            }
            Some(ClientSchedule { scheduled: r, registered_metrics: registered })
        },
    }
}

/// How an application's client is found when a caller locks it.
pub open spec fn client_state_of(c: Option<AppTelemetryClient>) -> ClientState {
    match c {
        None => ClientState::Missing,
        Some(c) => if c.stopping {
            ClientState::Stopping
        } else {
            ClientState::Ready
        },
    }
}

/// What a caller does with the client it locked.
pub enum DispatchStep<A> {
    /// The client is missing or stopping: look it up again, with these
    /// actions (handed back untouched).
    Retry(Vec<PendingAction<A>>),
    /// The actions were handled; `remove_client` when the application
    /// stopped and the client is to be released.
    Done { schedule: Option<ClientSchedule<A>>, remove_client: bool },
}

/// One attempt to hand `actions` to the client found for the application.
/// A missing or stopping client is looked up again (see [`acquire_step`])
/// unless the caller already knows the application stops; otherwise the
/// actions, if any, are scheduled on it (see
/// [`schedule_application_actions`]), and the client is released when the
/// application stopped.
pub fn dispatch_application_actions<A>(
    client: &mut Option<AppTelemetryClient>,
    actions: Vec<PendingAction<A>>,
    created: bool,
    remove_client: bool,
    now: u64,
) -> (res: DispatchStep<A>)
    ensures
        !remove_client && client_state_of(*old(client)) != ClientState::Ready ==> (res matches DispatchStep::Retry(back)
            && back@ == actions@ && *final(client) == *old(client)),
        !(!remove_client && client_state_of(*old(client)) != ClientState::Ready) && actions@.len() == 0 ==> (
        res matches DispatchStep::Done { schedule, remove_client: rc } && schedule is None && rc
            == remove_client && *final(client) == *old(client)),
        !(!remove_client && client_state_of(*old(client)) != ClientState::Ready) && actions@.len() > 0 ==> (
        res matches DispatchStep::Done { schedule, remove_client: rc } && match (
            *old(client),
            *final(client),
            schedule,
        ) {
            (None, None, None) => rc == remove_client,
            (Some(c0), Some(c1), Some(r)) => {
                &&& (c1.info@, r.scheduled@) == schedule_all(
                    c0.info@,
                    pending_views(actions@),
                    created,
                    now,
                )
                &&& (string_set(c1.metrics@), r.registered_metrics@) == register_all(
                    string_set(c0.metrics@),
                    pending_views(actions@),
                )
                &&& c1.stopping == (c0.stopping || r.scheduled.remove_client)
                &&& rc == (remove_client || r.scheduled.remove_client)
            },
            _ => false,
        }),
{
    let state = match client {
        None => ClientState::Missing,
        Some(c) => if c.stopping {
            ClientState::Stopping
        } else {
            ClientState::Ready
        },
    };
    if acquire_step(remove_client, state) == AcquireStep::Retry {
        return DispatchStep::Retry(actions);
    }
    if actions.len() == 0 {
        return DispatchStep::Done { schedule: None, remove_client };
    }
    let schedule = schedule_application_actions(client, actions, created, now);
    let rc = match &schedule {
        Some(r) => remove_client || r.scheduled.remove_client,
        None => remove_client,
    };
    DispatchStep::Done { schedule, remove_client: rc }
}

/// A step never takes back that the shared info changed.
proof fn lemma_step_keeps_changed<A>(
    info: SharedInfoView,
    out: ScheduledView<A>,
    p: PendingView<A>,
    created: bool,
    now: u64,
)
    ensures
        out.buffered_info_changed ==> schedule_step(info, out, p, created, now).1.buffered_info_changed,
        schedule_step(info, out, p, created, now).0 != info ==> schedule_step(
            info,
            out,
            p,
            created,
            now,
        ).1.buffered_info_changed,
{
}

/// Whenever scheduling changes what the client has reported (integrations,
/// composer files, configuration sent, endpoints pushed), the result says
/// so, and the client's shared file is rewritten.
pub proof fn lemma_info_change_is_flagged<A>(
    info: SharedInfoView,
    actions: Seq<PendingView<A>>,
    created: bool,
    now: u64,
)
    ensures
        schedule_all(info, actions, created, now).0 != info ==> schedule_all(
            info,
            actions,
            created,
            now,
        ).1.buffered_info_changed,
    decreases actions.len(),
{
    if actions.len() > 0 {
        let prev = schedule_all(info, actions.drop_last(), created, now);
        lemma_info_change_is_flagged(info, actions.drop_last(), created, now);
        lemma_step_keeps_changed(prev.0, prev.1, actions.last(), created, now);
    }
}

} // verus!
