use dd_sidecar::appsec::{AppSecLifecycle, AppSecMessageResponse, AppSecState};

#[test]
fn the_first_start_decides() {
    let mut life = AppSecLifecycle::new();
    assert!(life.needs_start());
    assert!(!life.serves_messages());
    assert!(life.record_start(true, true));
    assert!(!life.needs_start());
    assert!(life.serves_messages());
    // A later attempt changes nothing, whatever it reports.
    assert!(life.record_start(false, false));
    assert!(life.take_shutdown());
    assert!(!life.take_shutdown());
    assert!(life.serves_messages());
}

#[test]
fn a_failed_start_never_serves() {
    let mut life = AppSecLifecycle::new();
    assert!(!life.record_start(true, false));
    assert!(!life.record_start(true, true));
    assert!(!life.serves_messages());
    assert!(!life.take_shutdown());
    let mut unregistered = AppSecLifecycle::new();
    assert!(!unregistered.record_start(false, true));
    let _ = AppSecState::Failed;
    let response = AppSecMessageResponse { client_id: 7, data: vec![1, 2], disconnect: true };
    assert_eq!(response.client_id, 7);
}
