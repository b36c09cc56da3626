use dd_sidecar::app_telemetry::EnqueuedKind;
use dd_sidecar::connection::{plan_enqueued_actions, ConnectionInstances};
use dd_sidecar::evp::endpoint::Endpoint;
use dd_sidecar::ids::InstanceId;

fn agent() -> Option<Endpoint> {
    Some(Endpoint {
        url: "http://127.0.0.1:8126/".to_owned(),
        api_key: None,
        timeout_ms: 3_000,
        test_token: None,
    })
}

#[test]
fn ffe_exposure_actions_dispatch_without_registered_application() {
    let mut instances = ConnectionInstances::new();
    let id = InstanceId::new("session", "runtime");
    let plan = plan_enqueued_actions(&mut instances, &id, &vec![EnqueuedKind::FfeExposures], &agent(), false, false);
    assert_eq!(plan.routing.exposure_endpoint.unwrap().url, "http://127.0.0.1:8126/evp_proxy/v2/api/v2/exposures");
    assert_eq!(plan.routing.exposures, vec![0]);
    assert!(!plan.schedule);
    let known = instances.instances();
    assert_eq!(known.len(), 1);
    assert!(known[0].same_as(&id));
}

#[test]
fn each_instance_is_stopped_once_when_the_connection_closes() {
    let mut instances = ConnectionInstances::new();
    let a = InstanceId::new("s", "r1");
    let b = InstanceId::new("s", "r2");
    for id in [&a, &b, &a] {
        plan_enqueued_actions(&mut instances, id, &vec![EnqueuedKind::Telemetry], &None, false, true);
    }
    let known = instances.instances();
    assert_eq!(known.len(), 2);
    assert!(known.iter().any(|x| x.same_as(&a)));
    assert!(known.iter().any(|x| x.same_as(&b)));
}

#[test]
fn telemetry_goes_to_the_application_only_when_there_is_one() {
    let mut instances = ConnectionInstances::new();
    let id = InstanceId::new("s", "r");
    let kinds = vec![EnqueuedKind::Telemetry, EnqueuedKind::FfeEvaluationMetrics];
    let with_app = plan_enqueued_actions(&mut instances, &id, &kinds, &agent(), true, true);
    assert!(with_app.schedule);
    assert_eq!(with_app.routing.scheduled, vec![0]);
    assert_eq!(with_app.routing.evaluation_metrics, vec![1]);
    let without = plan_enqueued_actions(&mut instances, &id, &kinds, &agent(), true, false);
    assert!(!without.schedule);
}
