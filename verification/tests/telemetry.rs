use dd_sidecar::telemetry::{
    CLogLevel, FfiError, RetryQueue, TelemetryClientCache, MAX_ATTEMPTS, RETRY_DELAY_MS,
};

#[test]
fn a_batch_is_tried_at_most_max_attempts_times() {
    let mut queue: RetryQueue<u32> = RetryQueue::new();
    // First try failed.
    queue.defer_fresh("svc".to_owned(), "env".to_owned(), 7, 0);
    let mut tries = 1;
    let mut now = 0;
    loop {
        now += RETRY_DELAY_MS;
        let batch = queue.take_due().expect("a batch waits");
        assert_eq!(batch.next_attempt_at_ms, now);
        tries += 1;
        if !queue.defer_again(batch, now) {
            break;
        }
    }
    assert_eq!(tries, MAX_ATTEMPTS);
    assert!(queue.is_empty());
}

#[test]
fn fresh_batches_join_the_waiting_batch_of_their_client() {
    let mut queue: RetryQueue<u32> = RetryQueue::new();
    queue.defer_fresh("a".to_owned(), "prod".to_owned(), 1, 0);
    queue.defer_fresh("b".to_owned(), "prod".to_owned(), 2, 10);
    assert_eq!(queue.absorb("a", "prod", 3), None);
    assert_eq!(queue.absorb("c", "prod", 4), Some(4));
    assert_eq!(queue.len(), 2);
    let first = queue.take_due().unwrap();
    assert_eq!(first.service_name, "a");
    assert_eq!(first.actions, vec![1, 3]);
    assert_eq!(first.attempts_left, MAX_ATTEMPTS - 1);
}

#[test]
fn earliest_due_batch_comes_first() {
    let mut queue: RetryQueue<u32> = RetryQueue::new();
    assert_eq!(queue.earliest(), None);
    queue.defer_fresh("a".to_owned(), "e".to_owned(), 1, 50);
    queue.defer_fresh("b".to_owned(), "e".to_owned(), 2, 10);
    queue.defer_fresh("c".to_owned(), "e".to_owned(), 3, 10);
    assert_eq!(queue.earliest(), Some(1));
    assert_eq!(queue.take_due().unwrap().service_name, "b");
    assert_eq!(queue.take_due().unwrap().service_name, "c");
    assert_eq!(queue.take_due().unwrap().service_name, "a");
    assert!(queue.take_due().is_none());
}

#[test]
fn ffi_codes() {
    assert_eq!(FfiError::Success.code(), 0);
    assert_eq!(FfiError::PointerNull.code(), 1);
    assert_eq!(FfiError::OperationFailed.code(), 2);
    assert_eq!(FfiError::InvalidUtf8.code(), 3);
    assert_eq!(FfiError::QueueFull.code(), 4);
    assert_eq!(CLogLevel::Error.code(), 1);
    assert_eq!(CLogLevel::Warn.code(), 2);
    assert_eq!(CLogLevel::Debug.code(), 3);
    assert_eq!(CLogLevel::from_code(2), Some(CLogLevel::Warn));
    assert_eq!(CLogLevel::from_code(0), None);
    assert_eq!(CLogLevel::from_code(4), None);
}

#[test]
fn telemetry_clients_are_created_once_and_replaced_only_when_stopped() {
    let mut cache = TelemetryClientCache::new();
    assert_eq!(cache.get_existing("web", "prod", 0), None);
    assert_eq!(cache.get_or_create("web", "prod", |_| true, 1, 10), (1, true));
    assert_eq!(cache.get_or_create("web", "prod", |_| true, 2, 20), (1, false));
    assert_eq!(cache.get_or_create("web", "prod", |c| c != 1, 3, 30), (3, true));
    assert_eq!(cache.get_existing("web", "prod", 40), Some(3));
    // A stale handle does not remove its replacement.
    cache.remove_if_same("web", "prod", 1);
    assert_eq!(cache.get_existing("web", "prod", 50), Some(3));
    cache.remove_if_same("web", "prod", 3);
    assert_eq!(cache.get_existing("web", "prod", 60), None);
}

#[test]
fn idle_telemetry_clients_are_evicted() {
    let mut cache = TelemetryClientCache::new();
    cache.get_or_create("a", "prod", |_| true, 1, 0);
    cache.get_or_create("b", "prod", |_| true, 2, 500);
    cache.evict_idle(1_000, 1_000);
    assert_eq!(cache.get_existing("a", "prod", 1_000), None);
    assert_eq!(cache.get_existing("b", "prod", 1_000), Some(2));
}
