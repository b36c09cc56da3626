use dd_sidecar::evp::config::EvpTransportConfig;
use dd_sidecar::evp::endpoint::Endpoint;
use dd_sidecar::evp::identity::EvpProducerIdentity;
use dd_sidecar::evp::route::{
    select_proxy_version, supports_identity_headers, DeliveryFailure, FailurePolicy, ProxyVersion,
    Route, RouteDecision, RouteSelector, RouteState, DEFAULT_UNAVAILABLE_RECOVERY_COOLDOWN_MS,
};
use dd_sidecar::evp::transport::EvpTransport;

fn endpoint(url: &str, api_key: Option<&str>) -> Endpoint {
    Endpoint { url: url.to_owned(), api_key: api_key.map(str::to_owned), timeout_ms: 3_000, test_token: None }
}

fn selector(has_direct: bool) -> RouteSelector {
    RouteSelector {
        fallback_allowed: true,
        has_direct,
        policy: FailurePolicy::LeaveOnRejection,
        cooldown: DEFAULT_UNAVAILABLE_RECOVERY_COOLDOWN_MS,
        state: RouteState::Unresolved,
    }
}

#[test]
fn first_send_discovers_then_uses_the_found_proxy() {
    let mut s = selector(true);
    assert_eq!(s.begin_send(0), RouteDecision::Discover);
    assert_eq!(s.complete_discovery(Some(ProxyVersion::V4), 0), Some(Route::Local(ProxyVersion::V4)));
    assert_eq!(s.begin_send(1), RouteDecision::Use(Route::Local(ProxyVersion::V4)));
}

#[test]
fn missing_proxy_selects_direct_and_it_stays() {
    let mut s = selector(true);
    assert_eq!(s.complete_discovery(None, 0), Some(Route::Direct));
    let failure = DeliveryFailure::Status(503);
    assert!(!s.after_failed_attempt(Route::Direct, &failure, 10));
    assert_eq!(s.state, RouteState::Direct);
}

#[test]
fn unavailable_route_waits_out_the_cooldown_then_probes_again() {
    let mut s = selector(false);
    assert_eq!(s.complete_discovery(None, 1_000), None);
    assert_eq!(s.state, RouteState::Unavailable { retry_at: 31_000 });
    assert_eq!(s.begin_send(30_999), RouteDecision::Unavailable);
    assert_eq!(s.begin_send(31_000), RouteDecision::Discover);
}

#[test]
fn rejected_local_route_replays_only_replayable_failures() {
    let mut s = selector(true);
    s.complete_discovery(Some(ProxyVersion::V2), 0);
    // A missing proxy path is replayable: the same batch goes direct.
    assert!(s.after_failed_attempt(Route::Local(ProxyVersion::V2), &DeliveryFailure::Status(404), 5));
    assert_eq!(s.state, RouteState::Direct);

    let mut s = selector(true);
    s.complete_discovery(Some(ProxyVersion::V2), 0);
    // An ambiguous failure switches only future batches.
    assert!(!s.after_failed_attempt(
        Route::Local(ProxyVersion::V2),
        &DeliveryFailure::Ambiguous("timeout".to_owned()),
        5
    ));
    assert_eq!(s.state, RouteState::Direct);

    let mut s = selector(true);
    s.complete_discovery(Some(ProxyVersion::V2), 0);
    // A plain client error keeps the local route.
    assert!(!s.after_failed_attempt(Route::Local(ProxyVersion::V2), &DeliveryFailure::Status(400), 5));
    assert_eq!(s.state, RouteState::Local(ProxyVersion::V2));
}

#[test]
fn feature_flag_policy_ignores_overload() {
    let mut s = selector(true);
    s.policy = FailurePolicy::LeaveOnReplayableOrAmbiguous;
    s.complete_discovery(Some(ProxyVersion::V4), 0);
    assert!(!s.after_failed_attempt(Route::Local(ProxyVersion::V4), &DeliveryFailure::Status(429), 5));
    assert_eq!(s.state, RouteState::Local(ProxyVersion::V4));
    assert!(!s.after_failed_attempt(Route::Local(ProxyVersion::V4), &DeliveryFailure::Status(503), 5));
    assert_eq!(s.state, RouteState::Local(ProxyVersion::V4));
}

#[test]
fn agent_only_transport_keeps_historical_v2() {
    let t = EvpTransport::agent_only(endpoint("http://agent:8126/", None), "event-platform-intake", 3).unwrap();
    let r = t.route();
    assert!(!r.fallback_allowed);
    assert_eq!(r.state, RouteState::Local(ProxyVersion::V2));
    assert_eq!(t.begin_send(0), RouteDecision::Use(Route::Local(ProxyVersion::V2)));
}

#[test]
fn agentless_transport_starts_unresolved_with_direct_available() {
    let config = EvpTransportConfig::prefer_local_then_direct(
        endpoint("http://agent:8126/", Some("agent-key")),
        Some(endpoint("https://event-platform-intake.datadoghq.com/", Some("secret"))),
        "event-platform-intake",
    );
    let t = EvpTransport::new_with_identity(config, EvpProducerIdentity::new("dd-trace-rb", "3.0.0").unwrap(), 9).unwrap();
    assert!(t.config().agent_endpoint.api_key.is_none());
    assert_eq!(t.config().direct_endpoint.as_ref().unwrap().api_key.as_deref(), Some("secret"));
    assert_eq!(t.route().state, RouteState::Unresolved);
    assert!(t.route().has_direct);
    assert_eq!(t.deduplication_scope(), "9\0dd-trace-rb\03.0.0");
}

#[test]
fn proxy_version_and_identity_header_discovery() {
    let eps = vec!["/evp_proxy/v2/".to_owned(), "/evp_proxy/v4".to_owned()];
    assert_eq!(select_proxy_version(&eps), Some(ProxyVersion::V4));
    let only_v2 = vec!["/evp_proxy/v2".to_owned()];
    assert_eq!(select_proxy_version(&only_v2), Some(ProxyVersion::V2));
    assert_eq!(select_proxy_version(&[]), None);

    let both = vec![" dd-evp-origin ".to_owned(), "DD-EVP-ORIGIN-VERSION".to_owned()];
    assert!(supports_identity_headers(Some(both.as_slice())));
    let one = vec!["DD-EVP-ORIGIN".to_owned()];
    assert!(!supports_identity_headers(Some(one.as_slice())));
    assert!(!supports_identity_headers(None));
}
