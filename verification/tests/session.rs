use dd_sidecar::evp::endpoint::Endpoint;
use dd_sidecar::server_stats::{session_totals, telemetry_totals, RuntimeSummary};
use dd_sidecar::session::{
    flush_limits_for, idle_tick, join_with_commas, stats_config_for, SessionCounter,
};

#[test]
fn the_last_connection_stops_its_session() {
    let mut counter = SessionCounter::new();
    counter.join("s1");
    counter.join("s1");
    counter.join("s2");
    assert_eq!(counter.len(), 2);
    assert_eq!(counter.count("s1"), 2);
    assert!(!counter.leave("s1"));
    assert_eq!(counter.count("s1"), 1);
    assert!(counter.leave("s1"));
    assert_eq!(counter.count("s1"), 0);
    assert!(!counter.leave("s1"));
    assert_eq!(counter.len(), 1);
    assert!(counter.leave("s2"));
    assert_eq!(counter.len(), 0);
}

#[test]
fn session_settings() {
    let limits = flush_limits_for(1_000_000, (1usize << 32) + 7);
    assert_eq!(limits.min_force_flush_size_bytes, 1_000_000);
    assert_eq!(limits.min_force_drop_size_bytes, 7);

    assert_eq!(join_with_commas(&[]), "");
    assert_eq!(join_with_commas(&["a:1".to_owned()]), "a:1");
    assert_eq!(join_with_commas(&["a:1".to_owned(), "b:2".to_owned(), "c".to_owned()]), "a:1,b:2,c");

    let agent = Endpoint { url: "http://localhost:8126/".to_owned(), api_key: None, timeout_ms: 3_000, test_token: None };
    let c = stats_config_for(&agent, 10_000, "", "machine", &["x:y".to_owned()], "web", "php", "1.0.0");
    assert_eq!(c.endpoint.url, "http://localhost:8126/v0.6/stats");
    assert_eq!(c.hostname, "machine");
    assert_eq!(c.process_tags, "x:y");
    let agentless = Endpoint { api_key: Some("k".to_owned()), ..agent };
    let c = stats_config_for(&agentless, 10_000, "host", "machine", &[], "web", "php", "1.0.0");
    assert_eq!(c.endpoint.url, "http://localhost:8126/");
    assert_eq!(c.hostname, "host");
}

#[test]
fn totals_over_sessions() {
    let r = |applications, remote_config_clients| RuntimeSummary { applications, remote_config_clients };
    let sessions = vec![vec![r(2, 1), r(1, 0)], vec![], vec![r(3, 3)]];
    let t = session_totals(&sessions, 4);
    assert_eq!(t.sessions, 3);
    assert_eq!(t.session_counter_size, 4);
    assert_eq!(t.runtimes, 3);
    assert_eq!(t.active_apps, 6);
    assert_eq!(t.remote_config_clients, 4);

    let tt = telemetry_totals(&[Some(2), None, Some(5)], 1, 3);
    assert_eq!(tt.active_telemetry_clients, 3);
    assert_eq!(tt.telemetry_metrics_contexts, 7);
    assert_eq!(tt.telemetry_worker_errors, 3);
}

#[test]
fn an_idle_sidecar_shuts_down_after_its_linger_time() {
    assert_eq!(idle_tick(0, 2, 10_000, 60_000), (10_000, false));
    assert_eq!(idle_tick(10_000, 0, 70_000, 60_000), (10_000, false));
    assert_eq!(idle_tick(10_000, 0, 70_001, 60_000), (10_000, true));
    assert_eq!(idle_tick(10_000, 1, 200_000, 60_000), (200_000, false));
}
