use dd_sidecar::self_telemetry::{
    minute_report, steps_for, LogLevel, MetricNamespace, MetricType, SelfMetric, SidecarGauges,
    WorkerEvent, WorkerStep,
};
use dd_sidecar::trace_flush::TraceFlusherMetrics;

fn gauges() -> SidecarGauges {
    SidecarGauges { submitted_payloads: 5, active_sessions: 2, memory_usage_bytes: 1 << 20 }
}

#[test]
fn a_quiet_minute_reports_the_sidecar_values_only() {
    let points = minute_report(gauges(), &[], &TraceFlusherMetrics::default(), &[]);
    let metrics: Vec<SelfMetric> = points.iter().map(|p| p.metric).collect();
    assert_eq!(metrics, vec![SelfMetric::SubmittedPayloads, SelfMetric::ActiveSessions, SelfMetric::MemoryUsage]);
    assert_eq!(points[2].value, 1 << 20);
    assert!(points.iter().all(|p| p.tags.is_empty()));
}

#[test]
fn busy_minute_reports_logs_counters_and_responses() {
    let mut trace = TraceFlusherMetrics::default();
    trace.api_requests = 3;
    trace.api_errors_timeout = 1;
    trace.bytes_sent = 700;
    let points = minute_report(gauges(), &[(LogLevel::Warn, 4)], &trace, &[(202, 2)]);
    let summary: Vec<(SelfMetric, u64)> = points.iter().map(|p| (p.metric, p.value)).collect();
    assert_eq!(
        summary,
        vec![
            (SelfMetric::SubmittedPayloads, 5),
            (SelfMetric::ActiveSessions, 2),
            (SelfMetric::MemoryUsage, 1 << 20),
            (SelfMetric::LogsCreated, 4),
            (SelfMetric::TraceApiRequests, 3),
            (SelfMetric::TraceApiErrors, 1),
            (SelfMetric::TraceApiBytes, 700),
            (SelfMetric::TraceApiResponses, 2),
        ]
    );
    let tag = |k: &str, v: &str| (k.to_owned(), v.to_owned());
    assert_eq!(points[3].tags, vec![tag("level", "warn"), tag("src_library", "libdatadog")]);
    assert_eq!(points[5].tags, vec![tag("type", "timeout"), tag("src_library", "libdatadog")]);
    assert_eq!(points[7].tags, vec![tag("status_code", "202"), tag("src_library", "libdatadog")]);
}

#[test]
fn metric_registrations() {
    assert_eq!(SelfMetric::SubmittedPayloads.name(), "server.submitted_payloads");
    assert_eq!(SelfMetric::ActiveSessions.metric_type(), MetricType::Gauge);
    assert_eq!(SelfMetric::TraceApiBytes.metric_type(), MetricType::Distribution);
    assert_eq!(SelfMetric::LogsCreated.namespace(), MetricNamespace::General);
    assert_eq!(SelfMetric::TraceChunksDropped.name(), "trace_chunks_dropped");
    assert_eq!(SelfMetric::TraceChunksDropped.namespace(), MetricNamespace::Tracers);
}

#[test]
fn worker_reports_then_flushes_or_stops() {
    assert_eq!(steps_for(WorkerEvent::Tick), vec![WorkerStep::Report, WorkerStep::FlushMetrics, WorkerStep::FlushData]);
    assert_eq!(steps_for(WorkerEvent::Shutdown), vec![WorkerStep::Report, WorkerStep::Stop]);
}
