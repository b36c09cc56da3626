use dd_sidecar::evp::endpoint::Endpoint;
use dd_sidecar::app_telemetry::{
    acquire_step, dispatch_application_actions, route_enqueued_actions,
    schedule_application_actions, telemetry_client_key, AcquireStep, ActionKind,
    AppTelemetryClient, ClientState, DispatchStep, EnqueuedKind, PendingAction,
    SharedTelemetryInfo,
};

fn pending(action: &'static str, kind: ActionKind, seeded: bool) -> PendingAction<&'static str> {
    PendingAction { action, kind, seeded }
}

#[test]
fn integrations_and_composer_files_are_reported_once() {
    let mut info = SharedTelemetryInfo::new();
    let out = info.schedule(
        vec![
            pending("int-a", ActionKind::AddIntegration("a".to_owned()), false),
            pending("int-a-again", ActionKind::AddIntegration("a".to_owned()), false),
            pending("composer", ActionKind::ComposerFile("/app/composer.json".to_owned()), false),
            pending("composer-again", ActionKind::ComposerFile("/app/composer.json".to_owned()), false),
            pending("metric", ActionKind::Other, false),
        ],
        false,
        10,
    );
    assert_eq!(out.to_process, vec!["int-a", "metric"]);
    assert_eq!(out.composer_paths, vec!["/app/composer.json".to_owned()]);
    assert!(out.buffered_info_changed);
    assert!(!out.remove_client);
    assert!(info.has_integration("a"));
    assert!(info.has_composer_path("/app/composer.json"));

    let later = info.schedule(vec![pending("int-a", ActionKind::AddIntegration("a".to_owned()), false)], false, 20);
    assert!(later.to_process.is_empty());
    assert!(!later.buffered_info_changed);
}

#[test]
fn fresh_clients_skip_what_they_were_seeded_with() {
    let mut info = SharedTelemetryInfo::new();
    let out = info.schedule(
        vec![
            pending("config", ActionKind::AddConfig, true),
            pending("endpoints", ActionKind::AddEndpoint, false),
            pending("stop", ActionKind::Stop, false),
        ],
        true,
        99,
    );
    assert_eq!(out.to_process, vec!["endpoints", "stop"]);
    assert!(!info.config_sent());
    assert_eq!(info.last_endpoints_push_ms(), Some(99));
    assert!(out.remove_client);

    let mut again = SharedTelemetryInfo::new();
    let out = again.schedule(vec![pending("config", ActionKind::AddConfig, true)], false, 1);
    assert_eq!(out.to_process, vec!["config"]);
    assert!(again.config_sent());
}

#[test]
fn applications_without_names_share_the_unknown_client() {
    assert_eq!(
        telemetry_client_key(&None, &None),
        ("unknown-service".to_owned(), "none".to_owned())
    );
    assert_eq!(
        telemetry_client_key(&Some("web".to_owned()), &None),
        ("web".to_owned(), "none".to_owned())
    );
    assert_eq!(
        telemetry_client_key(&Some("web".to_owned()), &Some("prod".to_owned())),
        ("web".to_owned(), "prod".to_owned())
    );
}

#[test]
fn feature_flag_actions_are_split_out_of_an_enqueued_batch() {
    let kinds = vec![
        EnqueuedKind::Telemetry,
        EnqueuedKind::FfeExposures,
        EnqueuedKind::FfeEvaluationMetrics,
        EnqueuedKind::Telemetry,
        EnqueuedKind::FfeExposures,
    ];
    let agent = Some(Endpoint {
        url: "http://localhost:8126/v0.4/traces".to_owned(),
        api_key: None,
        timeout_ms: 3_000,
        test_token: None,
    });
    let r = route_enqueued_actions(&kinds, &agent, true);
    assert_eq!(r.exposure_endpoint.unwrap().url, "http://localhost:8126/evp_proxy/v2/api/v2/exposures");
    assert_eq!(r.exposures, vec![1, 4]);
    assert_eq!(r.evaluation_metrics, vec![2]);
    assert_eq!(r.scheduled, vec![0, 3]);

    let none = route_enqueued_actions(&kinds, &None, false);
    assert!(none.exposure_endpoint.is_none());
    assert!(none.exposures.is_empty());
    assert!(none.evaluation_metrics.is_empty());
    assert_eq!(none.scheduled, vec![0, 3]);
}

#[test]
fn a_stopping_client_is_looked_up_again() {
    assert_eq!(acquire_step(false, ClientState::Missing), AcquireStep::Retry);
    assert_eq!(acquire_step(false, ClientState::Stopping), AcquireStep::Retry);
    assert_eq!(acquire_step(false, ClientState::Ready), AcquireStep::Proceed);
    assert_eq!(acquire_step(true, ClientState::Stopping), AcquireStep::Proceed);
}

#[test]
fn scheduling_needs_a_client_and_a_stop_marks_it() {
    let mut missing: Option<AppTelemetryClient> = None;
    assert!(schedule_application_actions(&mut missing, vec![pending("stop", ActionKind::Stop, false)], false, 0).is_none());
    assert!(missing.is_none());

    let mut client = Some(fresh_client());
    let out = schedule_application_actions(
        &mut client,
        vec![pending("cfg", ActionKind::AddConfig, false), pending("stop", ActionKind::Stop, false)],
        false,
        5,
    )
    .unwrap()
    .scheduled;
    assert_eq!(out.to_process, vec!["cfg", "stop"]);
    assert!(out.remove_client);
    let c = client.unwrap();
    assert!(c.stopping);
    assert!(c.info.config_sent());
}

fn fresh_client() -> AppTelemetryClient {
    AppTelemetryClient { info: SharedTelemetryInfo::new(), metrics: Vec::new(), stopping: false }
}

fn point(name: &str, with_definition: bool) -> ActionKind {
    ActionKind::AddMetricPoint { name: name.to_owned(), with_definition }
}

#[test]
fn pending_metric_points_register_their_definitions_first() {
    let mut client = Some(fresh_client());
    client.as_mut().unwrap().metrics.push("known".to_owned());
    let out = schedule_application_actions(
        &mut client,
        vec![
            pending("p-known", point("known", true), false),
            pending("p-bare", point("bare", false), false),
            pending("p-new", point("new", true), false),
            pending("p-new-again", point("new", true), false),
        ],
        false,
        0,
    )
    .unwrap();
    assert_eq!(out.registered_metrics, vec![2]);
    assert_eq!(out.scheduled.to_process, vec!["p-known", "p-bare", "p-new", "p-new-again"]);
    let c = client.unwrap();
    assert_eq!(c.metrics, vec!["known".to_owned(), "new".to_owned()]);
}

#[test]
fn dispatch_retries_a_stopping_client_and_schedules_on_a_ready_one() {
    let mut stopping = Some(AppTelemetryClient { stopping: true, ..fresh_client() });
    match dispatch_application_actions(&mut stopping, vec![pending("cfg", ActionKind::AddConfig, false)], false, false, 0) {
        DispatchStep::Retry(back) => assert_eq!(back.len(), 1),
        DispatchStep::Done { .. } => panic!("a stopping client must be looked up again"),
    }
    let mut missing: Option<AppTelemetryClient> = None;
    match dispatch_application_actions(&mut missing, vec![pending("stop", ActionKind::Stop, false)], false, true, 0) {
        DispatchStep::Done { schedule, remove_client } => {
            assert!(schedule.is_none());
            assert!(remove_client);
        }
        DispatchStep::Retry(_) => panic!("a stopping application is not looked up again"),
    }
    let mut ready = Some(fresh_client());
    match dispatch_application_actions(&mut ready, vec![pending("stop", ActionKind::Stop, false)], false, false, 0) {
        DispatchStep::Done { schedule, remove_client } => {
            assert_eq!(schedule.unwrap().scheduled.to_process, vec!["stop"]);
            assert!(remove_client);
        }
        DispatchStep::Retry(_) => panic!("a ready client is used"),
    }
    assert!(ready.unwrap().stopping);
}
