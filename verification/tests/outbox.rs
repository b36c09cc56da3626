use dd_sidecar::ids::{InstanceId, QueueId};
use dd_sidecar::outbox::{OutboxRequest, SidecarOutbox, OUTBOX_SLOTS};

fn occupied(outbox: &SidecarOutbox<u8>) -> Vec<usize> {
    (0..OUTBOX_SLOTS).filter(|i| outbox.slot(*i).is_some()).collect()
}

#[test]
fn newer_messages_replace_older_ones_of_their_kind() {
    let mut outbox: SidecarOutbox<u8> = SidecarOutbox::new();
    assert!(outbox.is_empty());
    outbox.coalesce(OutboxRequest::SetSessionConfig(1));
    outbox.coalesce(OutboxRequest::SetSessionConfig(2));
    assert!(matches!(outbox.slot(0), Some(OutboxRequest::SetSessionConfig(2))));
    assert_eq!(occupied(&outbox), vec![0]);
}

#[test]
fn shutdown_cancels_pending_configuration() {
    let mut outbox: SidecarOutbox<u8> = SidecarOutbox::new();
    let iid = InstanceId::new("s", "r");
    outbox.coalesce(OutboxRequest::SetSessionConfig(1));
    outbox.coalesce(OutboxRequest::SetRequestConfig { instance_id: iid.clone(), queue_id: QueueId { inner: 3 }, payload: 9 });
    outbox.coalesce(OutboxRequest::SetUniversalServiceTags { instance_id: InstanceId::new("s", "other"), queue_id: QueueId { inner: 3 }, payload: 8 });
    outbox.coalesce(OutboxRequest::ShutdownRuntime { instance_id: iid });
    // The other runtime's tags stay; this runtime's request config is gone.
    assert_eq!(occupied(&outbox), vec![0, 2, 5]);
    outbox.coalesce(OutboxRequest::ShutdownSession);
    assert_eq!(occupied(&outbox), vec![2, 5, 6]);
}

#[test]
fn clearing_a_queue_cancels_only_that_queue() {
    let mut outbox: SidecarOutbox<u8> = SidecarOutbox::new();
    let iid = InstanceId::new("s", "r");
    outbox.coalesce(OutboxRequest::SetRequestConfig { instance_id: iid.clone(), queue_id: QueueId { inner: 1 }, payload: 0 });
    outbox.coalesce(OutboxRequest::ClearQueueId { instance_id: iid.clone(), queue_id: QueueId { inner: 2 } });
    assert_eq!(occupied(&outbox), vec![3, 4]);
    outbox.coalesce(OutboxRequest::ClearQueueId { instance_id: iid, queue_id: QueueId { inner: 1 } });
    assert_eq!(occupied(&outbox), vec![4]);
    assert_eq!(outbox.next_queued(), Some(4));
    assert!(outbox.take_slot(4).is_some());
    assert!(outbox.is_empty());
    assert_eq!(outbox.next_queued(), None);
}
