use dd_sidecar::evp::config::{EvpTransportConfig, EvpTransportMode};
use dd_sidecar::evp::endpoint::{check_direct_components, Endpoint};
use dd_sidecar::evp::uri::{UriAuthority, UriComponents};
use dd_sidecar::evp::ffe::{FfeEvpProducerIdentity, FfeEvpTransportConfig};
use dd_sidecar::evp::identity::{
    EvpProducerIdentity, EvpProducerIdentityError, MAX_EVP_PRODUCER_IDENTITY_LENGTH,
    MAX_FFE_EVP_PRODUCER_IDENTITY_LENGTH,
};
use dd_sidecar::evp::route::{is_definitive_connection_failure, IoErrorCause, IoErrorKind, WSAECONNREFUSED};
use dd_sidecar::evp::site::MAX_DNS_HOST_LENGTH;
use dd_sidecar::evp::transport::{EvpTransport, FfeEvpTransport};

const EVP_SUBDOMAIN_VALUE: &str = "event-platform-intake";

fn endpoint(url: &str, api_key: Option<&'static str>) -> Endpoint {
    Endpoint {
        url: url.to_owned(),
        api_key: api_key.map(Into::into),
        timeout_ms: 3_000,
        test_token: None,
    }
}

#[test]
fn evp_transport_direct_endpoint_validation_rejects_credential_exfiltration_targets() {
    for url in [
        "http://event-platform-intake.datadoghq.com/",
        "https://example.com/",
        "https://event-platform-intake.datadoghq.com:8443/",
        "https://event-platform-intake.datadoghq.com/unexpected",
        "https://event-platform-intake.datadoghq.com/?query=1",
        "https://event-platform-intake.-datadoghq.com/",
        "https://event-platform-intake.datadoghq-.com/",
        "https://event-platform-intake.data_doghq.com/",
        "https://event-platform-intake.DATADOGHQ.COM/",
    ] {
        let config = EvpTransportConfig::prefer_local_then_direct(
            endpoint("http://agent.internal:8126/", None),
            Some(endpoint(url, Some("secret"))),
            EVP_SUBDOMAIN_VALUE,
        );
        assert!(config.validate().is_err(), "accepted direct URL {url}");
    }

    assert!(EvpTransportConfig::prefer_local_then_direct(
        endpoint("http://agent.internal:8126/", None),
        Some(endpoint("https://event-platform-intake.datadoghq.eu/", Some("secret"))),
        EVP_SUBDOMAIN_VALUE,
    )
    .validate()
    .is_ok());

    assert!(EvpTransportConfig::prefer_local_then_direct(
        endpoint("http://agent.internal:8126/", None),
        Some(endpoint("https://event-platform-intake.mock-intake.invalid/", Some("secret"))),
        EVP_SUBDOMAIN_VALUE,
    )
    .validate()
    .is_ok());

    assert!(EvpTransportConfig::prefer_local_then_direct(
        endpoint("http://agent.internal:8126/", None),
        Some(endpoint("https://errors-intake.datadoghq.com/", Some("secret"))),
        "errors-intake",
    )
    .validate()
    .is_ok());

    assert!(EvpTransportConfig::prefer_local_then_direct(
        endpoint("http://agent.internal:8126/", None),
        Some(endpoint("https://event-platform-intake.datadoghq.com/", Some("secret"))),
        "errors-intake",
    )
    .validate()
    .is_err());

    let longest_valid_site_for_target =
        ["a".repeat(63), "b".repeat(63), "c".repeat(63), "d".repeat(39)].join(".");
    let valid_boundary_url =
        format!("https://{EVP_SUBDOMAIN_VALUE}.{longest_valid_site_for_target}/");
    assert_eq!(
        format!("{EVP_SUBDOMAIN_VALUE}.{longest_valid_site_for_target}").len(),
        MAX_DNS_HOST_LENGTH
    );
    assert!(EvpTransportConfig::prefer_local_then_direct(
        endpoint("http://agent.internal:8126/", None),
        Some(endpoint(&valid_boundary_url, Some("secret"))),
        EVP_SUBDOMAIN_VALUE,
    )
    .validate()
    .is_ok());

    let maximum_length_site =
        ["a".repeat(63), "b".repeat(63), "c".repeat(63), "d".repeat(61)].join(".");
    assert_eq!(maximum_length_site.len(), MAX_DNS_HOST_LENGTH);
    let oversized_composed_host = format!("https://{EVP_SUBDOMAIN_VALUE}.{maximum_length_site}/");
    assert!(EvpTransportConfig::prefer_local_then_direct(
        endpoint("http://agent.internal:8126/", None),
        Some(endpoint(&oversized_composed_host, Some("secret"))),
        EVP_SUBDOMAIN_VALUE,
    )
    .validate()
    .is_err());

    for subdomain in [
        "",
        "Event-platform-intake",
        "event.platform.intake",
        "-event-platform-intake",
        "event-platform-intake-",
        "event_platform_intake",
    ] {
        let config =
            EvpTransportConfig::agent_only(endpoint("http://agent.internal:8126/", None), subdomain);
        assert!(config.validate().is_err(), "accepted invalid intake subdomain {subdomain:?}");
    }
}

#[test]
fn ffe_evp_proxy_direct_endpoint_validation_rejects_credential_exfiltration_targets() {
    for url in [
        "http://event-platform-intake.datadoghq.com/",
        "https://example.com/",
        "https://event-platform-intake.datadoghq.com:8443/",
        "https://event-platform-intake.datadoghq.com/unexpected",
        "https://event-platform-intake.datadoghq.com/?query=1",
        "https://event-platform-intake.-datadoghq.com/",
        "https://event-platform-intake.datadoghq-.com/",
        "https://event-platform-intake.data_doghq.com/",
        "https://event-platform-intake.DATADOGHQ.COM/",
    ] {
        let config = FfeEvpTransportConfig::agentless(
            endpoint("http://agent.internal:8126/", None),
            Some(endpoint(url, Some("secret"))),
        );
        assert!(config.validate().is_err(), "accepted direct URL {url}");
    }

    assert!(FfeEvpTransportConfig::agentless(
        endpoint("http://agent.internal:8126/", None),
        Some(endpoint("https://event-platform-intake.datadoghq.eu/", Some("secret"))),
    )
    .validate()
    .is_ok());
}

#[test]
fn identityless_transport_rejects_agentless_configuration() {
    let config = FfeEvpTransportConfig::agentless(
        endpoint("http://agent.internal:8126/v0.4/traces", None),
        Some(endpoint("https://event-platform-intake.datadoghq.com/", Some("api-key"))),
    );
    assert!(config.validate().is_ok());
    assert_eq!(
        config.validate_without_identity().unwrap_err(),
        "Agentless EVP configuration requires a logical SDK producer identity"
    );
    assert!(FfeEvpTransport::new(config, 1).is_err());
}

fn wrapped(cause: IoErrorCause) -> Vec<Option<IoErrorCause>> {
    // The context message is not an I/O error; the wrapped error is.
    vec![None, Some(cause)]
}

#[test]
fn evp_transport_definitive_connection_failure_recognizes_wrapped_platform_sentinels() {
    let windows_refused = wrapped(IoErrorCause { raw_os_error: Some(WSAECONNREFUSED), kind: IoErrorKind::Other });
    assert!(is_definitive_connection_failure(&windows_refused));

    let missing_socket = wrapped(IoErrorCause { raw_os_error: None, kind: IoErrorKind::NotFound });
    assert!(is_definitive_connection_failure(&missing_socket));

    let reset = wrapped(IoErrorCause { raw_os_error: None, kind: IoErrorKind::Other });
    assert!(!is_definitive_connection_failure(&reset));
}

#[test]
fn ffe_evp_proxy_definitive_connection_failure_recognizes_wrapped_platform_sentinels() {
    let windows_refused = wrapped(IoErrorCause { raw_os_error: Some(WSAECONNREFUSED), kind: IoErrorKind::Other });
    assert!(is_definitive_connection_failure(&windows_refused));

    let missing_socket = wrapped(IoErrorCause { raw_os_error: None, kind: IoErrorKind::NotFound });
    assert!(is_definitive_connection_failure(&missing_socket));

    let reset = wrapped(IoErrorCause { raw_os_error: None, kind: IoErrorKind::Other });
    assert!(!is_definitive_connection_failure(&reset));
}

#[test]
fn evp_transport_producer_identity_rejects_untrusted_header_values_and_wire_input() {
    assert!(EvpProducerIdentity::new("", "1.0.0").is_err());
    assert!(EvpProducerIdentity::new("dd-trace-rb", "invalid\nversion").is_err());
    assert!(EvpProducerIdentity::new(&"x".repeat(MAX_EVP_PRODUCER_IDENTITY_LENGTH + 1), "1.0.0").is_err());
    // Decoding an identity from the wire goes through the same checks.
    assert!(EvpProducerIdentity::new("invalid\norigin", "1.0.0").is_err());
}

#[test]
fn ffe_evp_proxy_producer_identity_rejects_untrusted_header_values_and_wire_input() {
    assert!(FfeEvpProducerIdentity::new("", "1.0.0").is_err());
    assert!(FfeEvpProducerIdentity::new("dd-trace-rb", "invalid\nversion").is_err());
    assert!(FfeEvpProducerIdentity::new(&"x".repeat(MAX_FFE_EVP_PRODUCER_IDENTITY_LENGTH + 1), "1.0.0").is_err());
    assert!(FfeEvpProducerIdentity::new("invalid\norigin", "1.0.0").is_err());
}

#[test]
fn agent_only_mode_discards_all_direct_credentials() {
    let transport = EvpTransport::new_with_identity(
        EvpTransportConfig {
            mode: EvpTransportMode::AgentOnly,
            agent_endpoint: endpoint(
                "http://agent.internal:8126/v0.4/traces",
                Some("agent-key-must-not-be-retained"),
            ),
            direct_endpoint: Some(endpoint(
                "https://event-platform-intake.datadoghq.com/",
                Some("direct-key-must-not-be-retained"),
            )),
            intake_subdomain: EVP_SUBDOMAIN_VALUE.to_owned(),
        },
        EvpProducerIdentity::new("dd-trace-rb", "3.0.0").unwrap(),
        1,
    )
    .unwrap();

    assert!(transport.config().agent_endpoint.api_key.is_none());
    assert!(transport.config().direct_endpoint.is_none());
}

#[test]
fn identity_errors_name_the_field_and_the_problem() {
    assert_eq!(EvpProducerIdentity::new(" ", "1").unwrap_err(), EvpProducerIdentityError::EmptyOrigin);
    assert_eq!(EvpProducerIdentity::new("a", "").unwrap_err(), EvpProducerIdentityError::EmptyVersion);
    assert_eq!(
        EvpProducerIdentity::new(&"x".repeat(257), "1").unwrap_err(),
        EvpProducerIdentityError::OriginTooLong { length: 257 }
    );
    assert_eq!(
        EvpProducerIdentity::new("a", &"y".repeat(300)).unwrap_err(),
        EvpProducerIdentityError::VersionTooLong { length: 300 }
    );
    assert_eq!(EvpProducerIdentity::new(" a", "1").unwrap_err(), EvpProducerIdentityError::InvalidOrigin);
    assert_eq!(EvpProducerIdentity::new("a", "1\u{7f}").unwrap_err(), EvpProducerIdentityError::InvalidVersion);
    let ok = EvpProducerIdentity::new("dd-trace-rb", "3.0.0").unwrap();
    assert_eq!(ok.origin(), "dd-trace-rb");
    assert_eq!(ok.version(), "3.0.0");
}

#[test]
fn identity_error_messages() {
    assert_eq!(
        EvpProducerIdentityError::EmptyOrigin.message(),
        "EVP producer origin must not be empty"
    );
    assert_eq!(
        EvpProducerIdentityError::VersionTooLong { length: 300 }.message(),
        "EVP producer version is 300 bytes; maximum is 256"
    );
    assert_eq!(
        EvpProducerIdentityError::InvalidOrigin.message(),
        "EVP producer origin is not a valid HTTP header value"
    );
}

fn parsed(scheme: &str, text: &str, host: &str, has_port: bool, pq: Option<&str>) -> UriComponents {
    UriComponents {
        scheme: Some(scheme.to_owned()),
        authority: Some(UriAuthority {
            text: text.to_owned(),
            host: host.to_owned(),
            has_port,
        }),
        path_and_query: pq.map(str::to_owned),
        path: pq.unwrap_or("/").to_owned(),
    }
}

#[test]
fn parsed_direct_urls_are_checked_part_by_part() {
    let sub = "event-platform-intake";
    let host = "event-platform-intake.datadoghq.com";
    assert_eq!(check_direct_components(&parsed("https", host, host, false, Some("/")), sub, true), Ok(()));
    assert_eq!(
        check_direct_components(&parsed("http", host, host, false, None), sub, true),
        Err("direct EVP endpoint must use HTTPS".to_owned())
    );
    assert_eq!(
        check_direct_components(&parsed("https", "u@x", host, false, None), sub, true),
        Err("direct EVP endpoint must use the canonical authority without userinfo or a port".to_owned())
    );
    assert_eq!(
        check_direct_components(&parsed("https", "other.datadoghq.com", "other.datadoghq.com", false, None), sub, true),
        Err("direct EVP endpoint host must be event-platform-intake.<site>".to_owned())
    );
    assert_eq!(
        check_direct_components(&parsed("https", host, host, false, Some("/v1?a=b")), sub, true),
        Err("direct EVP endpoint must not include a path or query".to_owned())
    );
}

#[test]
fn the_legacy_identity_passes_validation() {
    let legacy = EvpProducerIdentity::legacy_sidecar();
    let checked = EvpProducerIdentity::new(legacy.origin(), legacy.version()).unwrap();
    assert!(checked.same_as(&legacy));
    let ffe = FfeEvpProducerIdentity::legacy_sidecar();
    assert!(FfeEvpProducerIdentity::new(ffe.origin(), ffe.version()).is_ok());
    // White space of any kind around a field is refused.
    assert_eq!(
        EvpProducerIdentity::new("\u{3000}php", "1.0").unwrap_err(),
        EvpProducerIdentityError::InvalidOrigin
    );
    assert_eq!(
        EvpProducerIdentity::new("php", "\u{2029}").unwrap_err(),
        EvpProducerIdentityError::EmptyVersion
    );
}
