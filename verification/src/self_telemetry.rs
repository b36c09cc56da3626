//! The sidecar's own telemetry: the metrics it registers, the points it
//! reports each minute, and the worker's lifecycle.
use vstd::prelude::*;
use crate::text::{decimal_digits, u64_to_decimal};
use crate::trace_flush::TraceFlusherMetrics;

verus! {

/// How a metric aggregates.
#[derive(Debug, Clone, Copy, PartialEq, Eq, Structural)]
pub enum MetricType {
    Count,
    Gauge,
    Distribution,
}

/// Where a metric is filed.
#[derive(Debug, Clone, Copy, PartialEq, Eq, Structural)]
pub enum MetricNamespace {
    Sidecar,
    General,
    Tracers,
}

/// The metrics the sidecar reports about itself.
#[derive(Debug, Clone, Copy, PartialEq, Eq, Structural)]
pub enum SelfMetric {
    SubmittedPayloads,
    ActiveSessions,
    MemoryUsage,
    LogsCreated,
    TraceApiRequests,
    TraceApiResponses,
    TraceApiErrors,
    TraceApiBytes,
    TraceChunksSent,
    TraceChunksDropped,
}

/// Each metric's registration: name, type and namespace.
pub open spec fn metric_definition(m: SelfMetric) -> (Seq<char>, MetricType, MetricNamespace) {
    match m {
        SelfMetric::SubmittedPayloads => ("server.submitted_payloads"@, MetricType::Count, MetricNamespace::Sidecar),
        SelfMetric::ActiveSessions => ("server.active_sessions"@, MetricType::Gauge, MetricNamespace::Sidecar),
        SelfMetric::MemoryUsage => ("server.memory_usage"@, MetricType::Distribution, MetricNamespace::Sidecar),
        SelfMetric::LogsCreated => ("logs_created"@, MetricType::Count, MetricNamespace::General),
        SelfMetric::TraceApiRequests => ("trace_api.requests"@, MetricType::Count, MetricNamespace::Tracers),
        SelfMetric::TraceApiResponses => ("trace_api.responses"@, MetricType::Count, MetricNamespace::Tracers),
        SelfMetric::TraceApiErrors => ("trace_api.errors"@, MetricType::Count, MetricNamespace::Tracers),
        SelfMetric::TraceApiBytes => ("trace_api.bytes"@, MetricType::Distribution, MetricNamespace::Tracers),
        SelfMetric::TraceChunksSent => ("trace_chunks_sent"@, MetricType::Count, MetricNamespace::Tracers),
        SelfMetric::TraceChunksDropped => ("trace_chunks_dropped"@, MetricType::Count, MetricNamespace::Tracers),
    }
}

impl SelfMetric {
    /// The metric's registered name.
    pub fn name(self) -> (res: &'static str)
        ensures
            res@ == metric_definition(self).0,
    {
        match self {
            SelfMetric::SubmittedPayloads => "server.submitted_payloads",
            SelfMetric::ActiveSessions => "server.active_sessions",
            SelfMetric::MemoryUsage => "server.memory_usage",
            SelfMetric::LogsCreated => "logs_created",
            SelfMetric::TraceApiRequests => "trace_api.requests",
            SelfMetric::TraceApiResponses => "trace_api.responses",
            SelfMetric::TraceApiErrors => "trace_api.errors",
            SelfMetric::TraceApiBytes => "trace_api.bytes",
            SelfMetric::TraceChunksSent => "trace_chunks_sent",
            SelfMetric::TraceChunksDropped => "trace_chunks_dropped",
        }
    }

    /// How the metric aggregates.
    pub fn metric_type(self) -> (res: MetricType)
        ensures
            res == metric_definition(self).1,
    {
        match self {
            SelfMetric::ActiveSessions => MetricType::Gauge,
            SelfMetric::MemoryUsage | SelfMetric::TraceApiBytes => MetricType::Distribution,
            _ => MetricType::Count,
        }
    }

    /// Where the metric is filed.
    pub fn namespace(self) -> (res: MetricNamespace)
        ensures
            res == metric_definition(self).2,
    {
        match self {
            SelfMetric::SubmittedPayloads | SelfMetric::ActiveSessions | SelfMetric::MemoryUsage => MetricNamespace::Sidecar,
            SelfMetric::LogsCreated => MetricNamespace::General,
            _ => MetricNamespace::Tracers,
        }
    }
}

/// The level of a log line, for counting created logs.
#[derive(Debug, Clone, Copy, PartialEq, Eq, Structural)]
pub enum LogLevel {
    Trace,
    Debug,
    Info,
    Warn,
    Error,
}

/// A level's tag value.
pub open spec fn level_tag(l: LogLevel) -> Seq<char> {
    match l {
        LogLevel::Trace => "trace"@,
        LogLevel::Debug => "debug"@,
        LogLevel::Info => "info"@,
        LogLevel::Warn => "warn"@,
        LogLevel::Error => "error"@,
    }
}

impl LogLevel {
    /// The level's tag value (its name in lower case).
    pub fn tag_value(self) -> (res: &'static str)
        ensures
            res@ == level_tag(self),
    {
        match self {
            LogLevel::Trace => "trace",
            LogLevel::Debug => "debug",
            LogLevel::Info => "info",
            LogLevel::Warn => "warn",
            LogLevel::Error => "error",
        }
    }
}

/// One point to report: metric, value and tags.
#[derive(Debug)]
pub struct MetricPoint {
    pub metric: SelfMetric,
    pub value: u64,
    pub tags: Vec<(String, String)>,
}

/// Spec view of a [`MetricPoint`].
pub struct PointView {
    pub metric: SelfMetric,
    pub value: u64,
    pub tags: Seq<(Seq<char>, Seq<char>)>,
}

impl View for MetricPoint {
    type V = PointView;

    open spec fn view(&self) -> PointView {
        PointView {
            metric: self.metric,
            value: self.value,
            tags: Seq::new(self.tags@.len(), |i: int| (self.tags@[i].0@, self.tags@[i].1@)),
        }
    }
}

/// The views of a sequence of points.
pub open spec fn point_views(s: Seq<MetricPoint>) -> Seq<PointView> {
    Seq::new(s.len(), |i: int| s[i]@)
}

/// The tag every library-side point carries.
pub open spec fn src_library_tag() -> (Seq<char>, Seq<char>) {
    ("src_library"@, "libdatadog"@)
}

/// The sidecar-wide values reported every minute.
#[derive(Debug, Clone, Copy, PartialEq, Eq, Structural)]
pub struct SidecarGauges {
    pub submitted_payloads: u64,
    pub active_sessions: u64,
    pub memory_usage_bytes: u64,
}

/// The point of a trace counter: reported only when non-zero.
pub open spec fn counter_point(metric: SelfMetric, value: u64, tags: Seq<(Seq<char>, Seq<char>)>) -> Seq<PointView> {
    if value > 0 {
        seq![PointView { metric, value, tags }]
    } else {
        Seq::empty()
    }
}

/// The error tags of one error type.
pub open spec fn error_tags(kind: Seq<char>) -> Seq<(Seq<char>, Seq<char>)> {
    seq![("type"@, kind), src_library_tag()]
}

/// The points of one minute: the three sidecar values always; the created
/// logs per level; each non-zero trace counter; the responses per status
/// code.
pub open spec fn minute_points(
    g: SidecarGauges,
    logs: Seq<(LogLevel, u64)>,
    requests: u64,
    errors_network: u64,
    errors_timeout: u64,
    errors_status_code: u64,
    bytes_sent: u64,
    chunks_sent: u64,
    chunks_dropped: u64,
    responses: Seq<(u16, u64)>,
) -> Seq<PointView> {
    seq![
        PointView { metric: SelfMetric::SubmittedPayloads, value: g.submitted_payloads, tags: Seq::empty() },
        PointView { metric: SelfMetric::ActiveSessions, value: g.active_sessions, tags: Seq::empty() },
        PointView { metric: SelfMetric::MemoryUsage, value: g.memory_usage_bytes, tags: Seq::empty() },
    ] + Seq::new(
        logs.len(),
        |i: int|
            PointView {
                metric: SelfMetric::LogsCreated,
                value: logs[i].1,
                tags: seq![("level"@, level_tag(logs[i].0)), src_library_tag()],
            },
    ) + counter_point(SelfMetric::TraceApiRequests, requests, seq![src_library_tag()])
        + counter_point(SelfMetric::TraceApiErrors, errors_network, error_tags("network"@))
        + counter_point(SelfMetric::TraceApiErrors, errors_timeout, error_tags("timeout"@))
        + counter_point(SelfMetric::TraceApiErrors, errors_status_code, error_tags("status_code"@))
        + counter_point(SelfMetric::TraceApiBytes, bytes_sent, seq![src_library_tag()])
        + counter_point(SelfMetric::TraceChunksSent, chunks_sent, seq![src_library_tag()])
        + counter_point(SelfMetric::TraceChunksDropped, chunks_dropped, seq![src_library_tag()])
        + Seq::new(
        responses.len(),
        |i: int|
            PointView {
                metric: SelfMetric::TraceApiResponses,
                value: responses[i].1,
                tags: seq![("status_code"@, decimal_digits(responses[i].0 as nat)), src_library_tag()],
            },
    )
}

/// A point with the given tags.
fn point(metric: SelfMetric, value: u64, tags: Vec<(String, String)>) -> (res: MetricPoint)
    ensures
        res.metric == metric,
        res.value == value,
        res.tags@ == tags@,
{
    MetricPoint { metric, value, tags }
}

/// The `src_library` tag.
fn src_library() -> (res: (String, String))
    ensures
        (res.0@, res.1@) == src_library_tag(),
{
    ("src_library".to_owned(), "libdatadog".to_owned())
}

/// Appends the point of a trace counter when it is non-zero.
fn push_counter(points: &mut Vec<MetricPoint>, metric: SelfMetric, value: u64, kind: Option<&str>)
    ensures
        point_views(final(points)@) == point_views(old(points)@) + counter_point(
            metric,
            value,
            match kind {
                Some(k) => error_tags(k@),
                None => seq![src_library_tag()],
            },
        ),
{
    let ghost before = point_views(points@);
    if value > 0 {
        let mut tags: Vec<(String, String)> = Vec::new();
        match kind {
            Some(k) => tags.push(("type".to_owned(), k.to_owned())),
            None => {},
        }
        tags.push(src_library());
        let p = point(metric, value, tags);
        points.push(p);
        proof {
            let want = match kind {
                Some(k) => error_tags(k@),
                None => seq![src_library_tag()],
            };
            assert(p@.tags =~= want);
            assert(point_views(points@) =~= before + counter_point(metric, value, want));
        }
    } else {
        assert(point_views(points@) =~= before + Seq::<PointView>::empty());
    }
}

/// The points to report this minute, from the sidecar values, the logs
/// created per level, the trace flusher's counters and its responses per
/// status code.
pub fn minute_report(
    gauges: SidecarGauges,
    logs: &[(LogLevel, u64)],
    trace: &TraceFlusherMetrics,
    responses: &[(u16, u64)],
) -> (res: Vec<MetricPoint>)
    ensures
        point_views(res@) == minute_points(
            gauges,
            logs@,
            trace.api_requests,
            trace.api_errors_network,
            trace.api_errors_timeout,
            trace.api_errors_status_code,
            trace.bytes_sent,
            trace.chunks_sent,
            trace.chunks_dropped,
            responses@,
        ),
{
    let mut points: Vec<MetricPoint> = Vec::new();
    points.push(point(SelfMetric::SubmittedPayloads, gauges.submitted_payloads, Vec::new()));
    points.push(point(SelfMetric::ActiveSessions, gauges.active_sessions, Vec::new()));
    points.push(point(SelfMetric::MemoryUsage, gauges.memory_usage_bytes, Vec::new()));
    let ghost fixed = point_views(points@);
    proof {
        assert(fixed[0].tags =~= Seq::<(Seq<char>, Seq<char>)>::empty());
        assert(fixed[1].tags =~= Seq::<(Seq<char>, Seq<char>)>::empty());
        assert(fixed[2].tags =~= Seq::<(Seq<char>, Seq<char>)>::empty());
        assert(fixed =~= seq![
            PointView { metric: SelfMetric::SubmittedPayloads, value: gauges.submitted_payloads, tags: Seq::empty() },
            PointView { metric: SelfMetric::ActiveSessions, value: gauges.active_sessions, tags: Seq::empty() },
            PointView { metric: SelfMetric::MemoryUsage, value: gauges.memory_usage_bytes, tags: Seq::empty() },
        ]);
    }
    let mut i: usize = 0;
    while i < logs.len()
        invariant
            i <= logs@.len(),
            point_views(points@) == fixed + Seq::new(
                i as nat,
                |j: int|
                    PointView {
                        metric: SelfMetric::LogsCreated,
                        value: logs@[j].1,
                        tags: seq![("level"@, level_tag(logs@[j].0)), src_library_tag()],
                    },
            ),
        decreases logs@.len() - i,
    {
        let (level, count) = logs[i];
        let mut tags: Vec<(String, String)> = Vec::new();
        tags.push(("level".to_owned(), level.tag_value().to_owned()));
        tags.push(src_library());
        let p = point(SelfMetric::LogsCreated, count, tags);
        let ghost before = point_views(points@);
        points.push(p);
        proof {
            assert(p@.tags =~= seq![("level"@, level_tag(level)), src_library_tag()]);
            assert(point_views(points@) =~= before.push(p@));
        }
        i = i + 1;
        proof {
            assert(point_views(points@) =~= fixed + Seq::new(
                i as nat,
                |j: int|
                    PointView {
                        metric: SelfMetric::LogsCreated,
                        value: logs@[j].1,
                        tags: seq![("level"@, level_tag(logs@[j].0)), src_library_tag()],
                    },
            ));
        }
    }
    push_counter(&mut points, SelfMetric::TraceApiRequests, trace.api_requests, None);
    push_counter(&mut points, SelfMetric::TraceApiErrors, trace.api_errors_network, Some("network"));
    push_counter(&mut points, SelfMetric::TraceApiErrors, trace.api_errors_timeout, Some("timeout"));
    push_counter(
        &mut points,
        SelfMetric::TraceApiErrors,
        trace.api_errors_status_code,
        Some("status_code"),
    );
    push_counter(&mut points, SelfMetric::TraceApiBytes, trace.bytes_sent, None);
    push_counter(&mut points, SelfMetric::TraceChunksSent, trace.chunks_sent, None);
    push_counter(&mut points, SelfMetric::TraceChunksDropped, trace.chunks_dropped, None);
    let ghost counted = point_views(points@);
    let mut k: usize = 0;
    while k < responses.len()
        invariant
            k <= responses@.len(),
            point_views(points@) == counted + Seq::new(
                k as nat,
                |j: int|
                    PointView {
                        metric: SelfMetric::TraceApiResponses,
                        value: responses@[j].1,
                        tags: seq![("status_code"@, decimal_digits(responses@[j].0 as nat)), src_library_tag()],
                    },
            ),
        decreases responses@.len() - k,
    {
        let (code, count) = responses[k];
        let mut tags: Vec<(String, String)> = Vec::new();
        tags.push(("status_code".to_owned(), u64_to_decimal(code as u64)));
        tags.push(src_library());
        let p = point(SelfMetric::TraceApiResponses, count, tags);
        let ghost before = point_views(points@);
        points.push(p);
        proof {
            assert(p@.tags =~= seq![("status_code"@, decimal_digits(code as nat)), src_library_tag()]);
            assert(point_views(points@) =~= before.push(p@));
        }
        k = k + 1;
        proof {
            assert(point_views(points@) =~= counted + Seq::new(
                k as nat,
                |j: int|
                    PointView {
                        metric: SelfMetric::TraceApiResponses,
                        value: responses@[j].1,
                        tags: seq![("status_code"@, decimal_digits(responses@[j].0 as nat)), src_library_tag()],
                    },
            ));
        }
    }
    proof {
        assert(point_views(points@) =~= minute_points(
            gauges,
            logs@,
            trace.api_requests,
            trace.api_errors_network,
            trace.api_errors_timeout,
            trace.api_errors_status_code,
            trace.bytes_sent,
            trace.chunks_sent,
            trace.chunks_dropped,
            responses@,
        ));
    }
    points
}

/// What wakes the self-telemetry worker.
#[derive(Debug, Clone, Copy, PartialEq, Eq, Structural)]
pub enum WorkerEvent {
    /// The minute is up.
    Tick,
    /// The sidecar shuts down.
    Shutdown,
}

/// What the worker does, in order.
#[derive(Debug, Clone, Copy, PartialEq, Eq, Structural)]
pub enum WorkerStep {
    /// Report this minute's points.
    Report,
    /// Flush aggregated metrics.
    FlushMetrics,
    /// Flush collected data.
    FlushData,
    /// Stop the telemetry worker, wait for it, and end.
    Stop,
}

/// The steps for an event: every minute report and flush; on shutdown
/// report one last time and stop.
pub open spec fn worker_steps(e: WorkerEvent) -> Seq<WorkerStep> {
    match e {
        WorkerEvent::Tick => seq![WorkerStep::Report, WorkerStep::FlushMetrics, WorkerStep::FlushData],
        WorkerEvent::Shutdown => seq![WorkerStep::Report, WorkerStep::Stop],
    }
}

/// The steps of the self-telemetry worker for `event`.
pub fn steps_for(event: WorkerEvent) -> (res: Vec<WorkerStep>)
    ensures
        res@ == worker_steps(event),
{
    match event {
        WorkerEvent::Tick => {
            let mut v = Vec::new();
            v.push(WorkerStep::Report);
            v.push(WorkerStep::FlushMetrics);
            v.push(WorkerStep::FlushData);
            assert(v@ =~= worker_steps(event));
            v
        },
        WorkerEvent::Shutdown => {
            let mut v = Vec::new();
            v.push(WorkerStep::Report);
            v.push(WorkerStep::Stop);
            assert(v@ =~= worker_steps(event));
            v
        },
    }
}

/// The worker reports before it stops: no minute's counters are lost at
/// shutdown, and only shutdown ends it.
pub proof fn lemma_report_before_stop(e: WorkerEvent)
    ensures
        worker_steps(e)[0] == WorkerStep::Report,
        worker_steps(e).contains(WorkerStep::Stop) <==> e == WorkerEvent::Shutdown,
{
    if e == WorkerEvent::Tick {
        assert(!worker_steps(e).contains(WorkerStep::Stop)) by {
            assert(forall|i: int| 0 <= i < 3 ==> worker_steps(e)[i] != WorkerStep::Stop);
        }
    } else {
        assert(worker_steps(e)[1] == WorkerStep::Stop);
    }
}

/// Counters that stayed at zero produce no point; a minute without traffic
/// reports exactly the three sidecar values.
pub proof fn lemma_quiet_minute(g: SidecarGauges)
    ensures
        minute_points(g, Seq::empty(), 0, 0, 0, 0, 0, 0, 0, Seq::empty()).len() == 3,
{
    assert(minute_points(g, Seq::empty(), 0, 0, 0, 0, 0, 0, 0, Seq::empty()) =~= seq![
        PointView { metric: SelfMetric::SubmittedPayloads, value: g.submitted_payloads, tags: Seq::empty() },
        PointView { metric: SelfMetric::ActiveSessions, value: g.active_sessions, tags: Seq::empty() },
        PointView { metric: SelfMetric::MemoryUsage, value: g.memory_usage_bytes, tags: Seq::empty() },
    ]);
}

/// The points before the error counters: the three sidecar values, the
/// logs per level and the request counter.
pub open spec fn head_points(g: SidecarGauges, logs: Seq<(LogLevel, u64)>, requests: u64) -> Seq<PointView> {
    seq![
        PointView { metric: SelfMetric::SubmittedPayloads, value: g.submitted_payloads, tags: Seq::empty() },
        PointView { metric: SelfMetric::ActiveSessions, value: g.active_sessions, tags: Seq::empty() },
        PointView { metric: SelfMetric::MemoryUsage, value: g.memory_usage_bytes, tags: Seq::empty() },
    ] + Seq::new(
        logs.len(),
        |i: int|
            PointView {
                metric: SelfMetric::LogsCreated,
                value: logs[i].1,
                tags: seq![("level"@, level_tag(logs[i].0)), src_library_tag()],
            },
    ) + counter_point(SelfMetric::TraceApiRequests, requests, seq![src_library_tag()])
}

/// The error counter points.
pub open spec fn error_points(network: u64, timeout: u64, status_code: u64) -> Seq<PointView> {
    counter_point(SelfMetric::TraceApiErrors, network, error_tags("network"@)) + counter_point(
        SelfMetric::TraceApiErrors,
        timeout,
        error_tags("timeout"@),
    ) + counter_point(SelfMetric::TraceApiErrors, status_code, error_tags("status_code"@))
}

/// The points after the error counters.
pub open spec fn tail_points(
    bytes_sent: u64,
    chunks_sent: u64,
    chunks_dropped: u64,
    responses: Seq<(u16, u64)>,
) -> Seq<PointView> {
    counter_point(SelfMetric::TraceApiBytes, bytes_sent, seq![src_library_tag()]) + counter_point(
        SelfMetric::TraceChunksSent,
        chunks_sent,
        seq![src_library_tag()],
    ) + counter_point(SelfMetric::TraceChunksDropped, chunks_dropped, seq![src_library_tag()])
        + Seq::new(
        responses.len(),
        |i: int|
            PointView {
                metric: SelfMetric::TraceApiResponses,
                value: responses[i].1,
                tags: seq![("status_code"@, decimal_digits(responses[i].0 as nat)), src_library_tag()],
            },
    )
}

/// The minute's points, cut around the error counters.
proof fn lemma_minute_points_split(
    g: SidecarGauges,
    logs: Seq<(LogLevel, u64)>,
    requests: u64,
    errors_network: u64,
    errors_timeout: u64,
    errors_status_code: u64,
    bytes_sent: u64,
    chunks_sent: u64,
    chunks_dropped: u64,
    responses: Seq<(u16, u64)>,
)
    ensures
        minute_points(
            g,
            logs,
            requests,
            errors_network,
            errors_timeout,
            errors_status_code,
            bytes_sent,
            chunks_sent,
            chunks_dropped,
            responses,
        ) == head_points(g, logs, requests) + error_points(
            errors_network,
            errors_timeout,
            errors_status_code,
        ) + tail_points(bytes_sent, chunks_sent, chunks_dropped, responses),
{
    let h = head_points(g, logs, requests);
    let n = counter_point(SelfMetric::TraceApiErrors, errors_network, error_tags("network"@));
    let t = counter_point(SelfMetric::TraceApiErrors, errors_timeout, error_tags("timeout"@));
    let c = counter_point(SelfMetric::TraceApiErrors, errors_status_code, error_tags("status_code"@));
    let b = counter_point(SelfMetric::TraceApiBytes, bytes_sent, seq![src_library_tag()]);
    let cs = counter_point(SelfMetric::TraceChunksSent, chunks_sent, seq![src_library_tag()]);
    let cd = counter_point(SelfMetric::TraceChunksDropped, chunks_dropped, seq![src_library_tag()]);
    let r = Seq::new(
        responses.len(),
        |i: int|
            PointView {
                metric: SelfMetric::TraceApiResponses,
                value: responses[i].1,
                tags: seq![("status_code"@, decimal_digits(responses[i].0 as nat)), src_library_tag()],
            },
    );
    assert(h + n + t + c + b + cs + cd + r =~= h + (n + t + c) + (b + cs + cd + r));
}

/// No point around the error counters is an error point.
proof fn lemma_no_errors_outside(
    g: SidecarGauges,
    logs: Seq<(LogLevel, u64)>,
    requests: u64,
    bytes_sent: u64,
    chunks_sent: u64,
    chunks_dropped: u64,
    responses: Seq<(u16, u64)>,
)
    ensures
        forall|i: int|
            0 <= i < head_points(g, logs, requests).len() ==> (#[trigger] head_points(
                g,
                logs,
                requests,
            )[i]).metric != SelfMetric::TraceApiErrors,
        forall|i: int|
            0 <= i < tail_points(bytes_sent, chunks_sent, chunks_dropped, responses).len()
                ==> (#[trigger] tail_points(
                bytes_sent,
                chunks_sent,
                chunks_dropped,
                responses,
            )[i]).metric != SelfMetric::TraceApiErrors,
{
    let h = head_points(g, logs, requests);
    assert forall|i: int| 0 <= i < h.len() implies (#[trigger] h[i]).metric != SelfMetric::TraceApiErrors by {
        if i >= 3 + logs.len() {
        } else if i >= 3 {
        }
    }
    let t = tail_points(bytes_sent, chunks_sent, chunks_dropped, responses);
    let b = counter_point(SelfMetric::TraceApiBytes, bytes_sent, seq![src_library_tag()]);
    let cs = counter_point(SelfMetric::TraceChunksSent, chunks_sent, seq![src_library_tag()]);
    let cd = counter_point(SelfMetric::TraceChunksDropped, chunks_dropped, seq![src_library_tag()]);
    assert forall|i: int| 0 <= i < t.len() implies (#[trigger] t[i]).metric != SelfMetric::TraceApiErrors by {
        if i < b.len() {
        } else if i < b.len() + cs.len() {
        } else if i < b.len() + cs.len() + cd.len() {
        } else {
        }
    }
}

/// Each trace API error counter is reported under its own error type: a
/// non-zero count of network errors, of timeouts or of error statuses is a
/// `TraceApiErrors` point with that value, tagged `type:network`,
/// `type:timeout` or `type:status_code` (and `src_library:libdatadog`); and
/// every error point tagged with one of these types carries that count.
#[verifier::rlimit(50)]
pub proof fn lemma_error_counters_keep_their_type(
    g: SidecarGauges,
    logs: Seq<(LogLevel, u64)>,
    requests: u64,
    errors_network: u64,
    errors_timeout: u64,
    errors_status_code: u64,
    bytes_sent: u64,
    chunks_sent: u64,
    chunks_dropped: u64,
    responses: Seq<(u16, u64)>,
)
    ensures
        ({
            let pts = minute_points(
                g,
                logs,
                requests,
                errors_network,
                errors_timeout,
                errors_status_code,
                bytes_sent,
                chunks_sent,
                chunks_dropped,
                responses,
            );
            &&& errors_network > 0 ==> pts.contains(
                PointView {
                    metric: SelfMetric::TraceApiErrors,
                    value: errors_network,
                    tags: seq![("type"@, "network"@), ("src_library"@, "libdatadog"@)],
                },
            )
            &&& errors_timeout > 0 ==> pts.contains(
                PointView {
                    metric: SelfMetric::TraceApiErrors,
                    value: errors_timeout,
                    tags: seq![("type"@, "timeout"@), ("src_library"@, "libdatadog"@)],
                },
            )
            &&& errors_status_code > 0 ==> pts.contains(
                PointView {
                    metric: SelfMetric::TraceApiErrors,
                    value: errors_status_code,
                    tags: seq![("type"@, "status_code"@), ("src_library"@, "libdatadog"@)],
                },
            )
            &&& forall|i: int|
                0 <= i < pts.len() && (#[trigger] pts[i]).metric == SelfMetric::TraceApiErrors
                    && pts[i].tags.len() > 0 && pts[i].tags[0] == ("type"@, "network"@) ==> pts[i].value
                    == errors_network
            &&& forall|i: int|
                0 <= i < pts.len() && (#[trigger] pts[i]).metric == SelfMetric::TraceApiErrors
                    && pts[i].tags.len() > 0 && pts[i].tags[0] == ("type"@, "timeout"@) ==> pts[i].value
                    == errors_timeout
        }),
{
    reveal_strlit("network");
    reveal_strlit("timeout");
    reveal_strlit("status_code");
    assert("network"@[0] != "timeout"@[0]);
    assert("network"@.len() != "status_code"@.len());
    assert("timeout"@.len() != "status_code"@.len());
    lemma_minute_points_split(
        g,
        logs,
        requests,
        errors_network,
        errors_timeout,
        errors_status_code,
        bytes_sent,
        chunks_sent,
        chunks_dropped,
        responses,
    );
    lemma_no_errors_outside(g, logs, requests, bytes_sent, chunks_sent, chunks_dropped, responses);
    let h = head_points(g, logs, requests);
    let e = error_points(errors_network, errors_timeout, errors_status_code);
    let t = tail_points(bytes_sent, chunks_sent, chunks_dropped, responses);
    let n = counter_point(SelfMetric::TraceApiErrors, errors_network, error_tags("network"@));
    let tm = counter_point(SelfMetric::TraceApiErrors, errors_timeout, error_tags("timeout"@));
    let sc = counter_point(SelfMetric::TraceApiErrors, errors_status_code, error_tags("status_code"@));
    let pts = h + e + t;
    if errors_network > 0 {
        assert(pts[h.len() as int] == e[0]);
        assert(e[0] == n[0]);
        assert(n[0].tags =~= seq![("type"@, "network"@), ("src_library"@, "libdatadog"@)]);
    }
    if errors_timeout > 0 {
        assert(pts[(h.len() + n.len()) as int] == e[n.len() as int]);
        assert(e[n.len() as int] == tm[0]);
        assert(tm[0].tags =~= seq![("type"@, "timeout"@), ("src_library"@, "libdatadog"@)]);
    }
    if errors_status_code > 0 {
        assert(pts[(h.len() + n.len() + tm.len()) as int] == e[(n.len() + tm.len()) as int]);
        assert(e[(n.len() + tm.len()) as int] == sc[0]);
        assert(sc[0].tags =~= seq![("type"@, "status_code"@), ("src_library"@, "libdatadog"@)]);
    }
    assert forall|i: int|
        0 <= i < pts.len() && (#[trigger] pts[i]).metric == SelfMetric::TraceApiErrors && pts[i].tags.len()
            > 0 implies (pts[i].tags[0] == ("type"@, "network"@) ==> pts[i].value == errors_network)
        && (pts[i].tags[0] == ("type"@, "timeout"@) ==> pts[i].value == errors_timeout) by {
        if i < h.len() {
            assert(pts[i] == h[i]);
        } else if i < h.len() + e.len() {
            let j = i - h.len();
            assert(pts[i] == e[j]);
            if j < n.len() {
                assert(e[j] == n[j]);
            } else if j < n.len() + tm.len() {
                assert(e[j] == tm[j - n.len()]);
            } else {
                assert(e[j] == sc[j - n.len() - tm.len()]);
            }
        } else {
            assert(pts[i] == t[i - h.len() - e.len()]);
        }
    }
}

} // verus!
