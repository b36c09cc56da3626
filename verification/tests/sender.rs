use dd_sidecar::ids::{InstanceId, QueueId};
use dd_sidecar::outbox::{OutboxRequest, SidecarOutbox};
use dd_sidecar::sender::{DrainStep, LoadShedder, DEFAULT_MAX_OUTSTANDING, SHED_CYCLE};

#[test]
fn under_pressure_one_batch_in_ten_goes_out() {
    let mut shedder = LoadShedder::new();
    assert_eq!(shedder.max_outstanding(), DEFAULT_MAX_OUTSTANDING);
    // At most half the limit outstanding: everything goes out.
    for _ in 0..25 {
        assert!(shedder.admit_actions(50));
    }
    let admitted: Vec<bool> = (0..30).map(|_| shedder.admit_actions(51)).collect();
    assert_eq!(admitted.iter().filter(|a| **a).count(), 3);
    for window in admitted.windows(SHED_CYCLE as usize) {
        assert_eq!(window.iter().filter(|a| **a).count(), 1);
    }
    assert!(!admitted[0]);
    assert!(admitted[9]);
}

#[test]
fn draining_goes_in_slot_order_while_there_is_room() {
    let mut outbox: SidecarOutbox<u8> = SidecarOutbox::new();
    let shedder = LoadShedder::new();
    assert_eq!(shedder.drain_step(&outbox, 0), DrainStep::Done);
    outbox.coalesce(OutboxRequest::ShutdownSession);
    outbox.coalesce(OutboxRequest::ClearQueueId { instance_id: InstanceId::new("s", "r"), queue_id: QueueId { inner: 1 } });
    assert_eq!(shedder.drain_step(&outbox, 99), DrainStep::Send(4));
    assert_eq!(shedder.drain_step(&outbox, 100), DrainStep::Blocked);
    assert!(outbox.take_slot(4).is_some());
    assert_eq!(shedder.drain_step(&outbox, 0), DrainStep::Send(6));
    outbox.take_slot(6);
    assert_eq!(shedder.drain_step(&outbox, 0), DrainStep::Done);
}

#[test]
fn limit_can_be_changed() {
    let mut shedder = LoadShedder::new();
    shedder.set_max_outstanding(10);
    assert!(shedder.admit_actions(5));
    assert!(!shedder.admit_actions(6));
}

fn queued_outbox() -> SidecarOutbox<u8> {
    let mut outbox: SidecarOutbox<u8> = SidecarOutbox::new();
    outbox.coalesce(OutboxRequest::SetSessionConfig(1));
    outbox.coalesce(OutboxRequest::ClearQueueId { instance_id: InstanceId::new("s", "r"), queue_id: QueueId { inner: 1 } });
    outbox.coalesce(OutboxRequest::ShutdownSession);
    outbox
}

#[test]
fn drain_sends_in_slot_order_and_empties_the_outbox() {
    let shedder = LoadShedder::new();
    let mut outbox = queued_outbox();
    // A session shutdown cancels the pending session config.
    assert!(outbox.slot(0).is_none());
    let sent = std::cell::RefCell::new(Vec::new());
    let ok = shedder.try_drain_outbox(&mut outbox, || 0, |m| {
        sent.borrow_mut().push(matches!(m, OutboxRequest::ClearQueueId { .. }));
        true
    });
    assert!(ok);
    assert_eq!(*sent.borrow(), vec![true, false]);
    assert!(outbox.is_empty());
    // Nothing queued: the drain succeeds even when the connection is backed up.
    assert!(shedder.try_drain_outbox(&mut outbox, || 1000, |_| false));
}

#[test]
fn drain_stops_at_the_first_refused_message() {
    let shedder = LoadShedder::new();
    let mut outbox = queued_outbox();
    let calls = std::cell::Cell::new(0);
    let ok = shedder.try_drain_outbox(&mut outbox, || 0, |_| {
        calls.set(calls.get() + 1);
        calls.get() == 1
    });
    assert!(!ok);
    assert_eq!(calls.get(), 2);
    assert!(outbox.slot(4).is_none());
    assert!(outbox.slot(6).is_some());

    let mut blocked = queued_outbox();
    assert!(!shedder.try_drain_outbox(&mut blocked, || DEFAULT_MAX_OUTSTANDING, |_| true));
    assert!(blocked.slot(4).is_some());
    assert!(blocked.slot(6).is_some());
}

#[test]
fn a_failed_drain_drops_the_telemetry_batch() {
    let mut shedder = LoadShedder::new();
    assert!(!shedder.enqueue_actions(false, 0));
    assert!(shedder.enqueue_actions(true, 0));
    let admitted: Vec<bool> = (0..10).map(|_| shedder.enqueue_actions(true, 51)).collect();
    assert_eq!(admitted.iter().filter(|a| **a).count(), 1);
    assert!(admitted[9]);
}
