use dd_sidecar::ids::{InstanceId, QueueId};

#[test]
fn test_instance_id_new() {
    let session_id = "test_session";
    let runtime_id = "test_runtime";

    let instance_id = InstanceId::new(session_id, runtime_id);

    assert_eq!(instance_id.session_id, session_id);
    assert_eq!(instance_id.runtime_id, runtime_id);
}

#[test]
fn test_new_unique() {
    let queue_id1 = QueueId::new_unique();
    let queue_id2 = QueueId::new_unique();

    assert_ne!(queue_id1, queue_id2, "Generated QueueIds should be unique");

    assert!(
        queue_id1.inner >= 1 && queue_id1.inner < u64::MAX,
        "Generated QueueId should be within the defined range bounds"
    );
    assert!(
        queue_id2.inner >= 1 && queue_id2.inner < u64::MAX,
        "Generated QueueId should be within the defined range bounds"
    );
}

#[test]
fn instance_ids_compare_by_both_parts() {
    let a = InstanceId::new("s", "r");
    assert!(a.same_as(&InstanceId::new("s", "r")));
    assert!(!a.same_as(&InstanceId::new("s", "other")));
    assert!(!a.same_as(&InstanceId::new("other", "r")));
}

#[test]
fn queue_id_from_integer_keeps_it() {
    let q: QueueId = QueueId::from(42u64);
    assert_eq!(q.inner, 42);
}
