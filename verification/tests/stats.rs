use dd_sidecar::evp::endpoint::Endpoint;
use dd_sidecar::stats::{
    stats_endpoint, ConcentratorKey, ConcentratorRegistry, EnsureStep, FlushTick, Liveness,
    IDLE_REMOVE_SECS, NEVER_IDLE,
};

fn key() -> ConcentratorKey {
    ConcentratorKey::new("prod", "1.2.3", "web")
}

#[test]
fn stats_need_a_local_agent() {
    let agent = Endpoint { url: "http://localhost:8126/v0.4/traces".to_owned(), api_key: None, timeout_ms: 3_000, test_token: Some("t".to_owned()) };
    let e = stats_endpoint(&agent).unwrap();
    assert_eq!(e.url, "http://localhost:8126/v0.6/stats");
    assert_eq!(e.test_token.as_deref(), Some("t"));
    let agentless = Endpoint { api_key: Some("key".to_owned()), ..agent };
    assert!(stats_endpoint(&agentless).is_none());
}

#[test]
fn ensure_creates_once_then_hands_out_guards() {
    let mut registry = ConcentratorRegistry::new();
    assert!(matches!(registry.ensure_step(&key(), false, false), EnsureStep::Skip));
    assert!(matches!(registry.ensure_step(&key(), true, true), EnsureStep::Skip));
    match registry.ensure_step(&key(), true, false) {
        EnsureStep::Create { path } => {
            assert!(path.starts_with("/ddspsc-"));
            assert!(path.len() <= 31);
        }
        other => panic!("unexpected {other:?}"),
    }
    let first = registry.record_created(key());
    assert_eq!(registry.liveness(&key()), Some(Liveness { ref_count: 1, last_zero_secs: NEVER_IDLE }));
    let second = match registry.ensure_step(&key(), true, false) {
        EnsureStep::Acquired(g) => g,
        other => panic!("unexpected {other:?}"),
    };
    assert!(second.key().same_as(&key()));
    assert_eq!(registry.liveness(&key()).unwrap().ref_count, 2);
    registry.release(first, 100);
    assert_eq!(registry.liveness(&key()), Some(Liveness { ref_count: 1, last_zero_secs: NEVER_IDLE }));
    registry.release(second, 200);
    assert_eq!(registry.liveness(&key()), Some(Liveness { ref_count: 0, last_zero_secs: 200 }));
}

#[test]
fn idle_concentrator_is_removed_after_the_quiet_period() {
    let mut registry = ConcentratorRegistry::new();
    let guard = registry.record_created(key());
    assert_eq!(registry.tick(&key(), 10_000), FlushTick::Flush);
    registry.release(guard, 1_000);
    assert_eq!(registry.tick(&key(), 1_000 + IDLE_REMOVE_SECS - 1), FlushTick::Flush);
    assert_eq!(registry.tick(&key(), 1_000 + IDLE_REMOVE_SECS), FlushTick::FlushAllAndStop);
    assert!(!registry.contains(&key()));
    assert_eq!(registry.tick(&key(), 5_000), FlushTick::Stop);
}

#[test]
fn a_new_guard_resets_the_idle_period() {
    let mut registry = ConcentratorRegistry::new();
    let guard = registry.record_created(key());
    registry.release(guard, 0);
    let again = match registry.ensure_step(&key(), true, false) {
        EnsureStep::Acquired(g) => g,
        other => panic!("unexpected {other:?}"),
    };
    assert_eq!(registry.tick(&key(), 10 * IDLE_REMOVE_SECS), FlushTick::Flush);
    registry.release(again, 5_000);
    assert_eq!(registry.liveness(&key()).unwrap().idle_secs(5_100), 100);
}

#[test]
fn guard_of_a_removed_concentrator_changes_nothing() {
    let mut registry = ConcentratorRegistry::new();
    let guard = registry.record_created(key());
    let other = registry.record_created(ConcentratorKey::new("prod", "1.2.4", "web"));
    registry.release(other, 0);
    assert_eq!(registry.tick(&ConcentratorKey::new("prod", "1.2.4", "web"), IDLE_REMOVE_SECS), FlushTick::FlushAllAndStop);
    registry.release(guard, 7);
    assert_eq!(registry.liveness(&key()), Some(Liveness { ref_count: 0, last_zero_secs: 7 }));
}

#[test]
fn liveness_idle_time() {
    let held = Liveness { ref_count: 2, last_zero_secs: NEVER_IDLE };
    assert_eq!(held.idle_secs(1_000_000), 0);
    assert!(!held.is_expired(u64::MAX));
    let idle = Liveness { ref_count: 0, last_zero_secs: 50 };
    assert_eq!(idle.idle_secs(40), 0);
    assert_eq!(idle.idle_secs(650), 600);
    assert!(idle.is_expired(650));
}

#[test]
fn a_failed_creation_registers_nothing() {
    let mut registry = ConcentratorRegistry::new();
    assert!(registry.finish_create(key(), false).is_none());
    assert!(!registry.contains(&key()));
    let guard = registry.finish_create(key(), true).unwrap();
    assert!(guard.key().same_as(&key()));
    assert_eq!(registry.liveness(&key()), Some(Liveness { ref_count: 1, last_zero_secs: NEVER_IDLE }));
}
