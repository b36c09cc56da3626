use dd_sidecar::evp::delivery::{
    agent_endpoint_with_path, classify_http_error, classify_status, delivery_endpoint,
    endpoint_with_path, get_product_endpoint, sends_subdomain_header, try_get_product_endpoint,
    HttpError, NO_DIRECT_ENDPOINT,
};
use dd_sidecar::evp::endpoint::Endpoint;
use dd_sidecar::evp::route::{DeliveryFailure, IoErrorCause, IoErrorKind, ProxyVersion, Route};
use dd_sidecar::ffe_flusher::{exposure_endpoint, truncate, EVP_EXPOSURES_PATH};

fn endpoint(url: &str, api_key: Option<&str>) -> Endpoint {
    Endpoint {
        url: url.to_owned(),
        api_key: api_key.map(str::to_owned),
        timeout_ms: 3_000,
        test_token: Some("token".to_owned()),
    }
}

#[test]
fn ffe_flusher_endpoint_preserves_authority_overrides_path() {
    let base = endpoint("http://agent.internal:8126/v0.4/traces", None);
    let ep = exposure_endpoint(&base).unwrap();
    let url: http::Uri = ep.url.parse().unwrap();
    assert_eq!(url.scheme_str(), Some("http"));
    assert_eq!(url.authority().unwrap().as_str(), "agent.internal:8126");
    assert_eq!(url.path(), EVP_EXPOSURES_PATH);
}

#[test]
fn path_replacement_keeps_everything_but_the_path() {
    let base = endpoint("https://intake.example:443/old?x=1", Some("key"));
    let e = endpoint_with_path(&base, "/new/path").unwrap();
    assert_eq!(e.url, "https://intake.example:443/new/path");
    assert_eq!(e.api_key.as_deref(), Some("key"));
    assert_eq!(e.timeout_ms, 3_000);
    assert_eq!(e.test_token.as_deref(), Some("token"));
    assert!(endpoint_with_path(&base, "no spaces allowed").is_err());
}

#[test]
fn agent_paths_keep_the_agent_prefix() {
    let base = endpoint("http://agent.internal:8126/prefix/v0.4/traces", None);
    let e = agent_endpoint_with_path(&base, "/evp_proxy/v4/api/v2/logs").unwrap();
    assert_eq!(e.url, "http://agent.internal:8126/prefix/evp_proxy/v4/api/v2/logs");
    let plain = endpoint("http://agent.internal:8126/", None);
    let e = agent_endpoint_with_path(&plain, "/evp_proxy/v2/api/v2/logs").unwrap();
    assert_eq!(e.url, "http://agent.internal:8126/evp_proxy/v2/api/v2/logs");
}

#[test]
fn delivery_endpoint_per_route() {
    let agent = endpoint("http://agent.internal:8126/v0.4/traces", None);
    let direct = Some(endpoint("https://event-platform-intake.datadoghq.com/", Some("secret")));
    let local = delivery_endpoint(&agent, &direct, Route::Local(ProxyVersion::V4), "/api/v2/logs").unwrap();
    assert_eq!(local.url, "http://agent.internal:8126/evp_proxy/v4/api/v2/logs");
    let d = delivery_endpoint(&agent, &direct, Route::Direct, "/api/v2/logs").unwrap();
    assert_eq!(d.url, "https://event-platform-intake.datadoghq.com/api/v2/logs");
    assert_eq!(d.api_key.as_deref(), Some("secret"));
    assert_eq!(
        delivery_endpoint(&agent, &None, Route::Direct, "/api/v2/logs").unwrap_err(),
        NO_DIRECT_ENDPOINT
    );
    assert!(sends_subdomain_header(Route::Local(ProxyVersion::V2)));
    assert!(!sends_subdomain_header(Route::Direct));
}

#[test]
fn statuses_and_client_errors_are_classified() {
    assert!(classify_status(200).is_ok());
    assert!(classify_status(202).is_ok());
    assert!(matches!(classify_status(404), Err(DeliveryFailure::Status(404))));
    assert!(matches!(classify_status(302), Err(DeliveryFailure::Status(302))));

    assert!(matches!(
        classify_http_error(HttpError::InvalidRequest("bad".to_owned())),
        DeliveryFailure::DefinitivePreSend(m) if m == "bad"
    ));
    let refused = vec![None, Some(IoErrorCause { raw_os_error: None, kind: IoErrorKind::ConnectionRefused })];
    assert!(matches!(
        classify_http_error(HttpError::Network { message: "refused".to_owned(), chain: refused }),
        DeliveryFailure::DefinitivePreSend(m) if m == "refused"
    ));
    let reset = vec![Some(IoErrorCause { raw_os_error: None, kind: IoErrorKind::Other })];
    assert!(matches!(
        classify_http_error(HttpError::Network { message: "reset".to_owned(), chain: reset }),
        DeliveryFailure::Ambiguous(m) if m == "reset"
    ));
    assert!(matches!(
        classify_http_error(HttpError::ResponseBody("body".to_owned())),
        DeliveryFailure::Ambiguous(_)
    ));
    assert!(matches!(
        classify_http_error(HttpError::Other("x".to_owned())),
        DeliveryFailure::Ambiguous(_)
    ));
    assert!(matches!(
        classify_http_error(HttpError::Timeout),
        DeliveryFailure::Ambiguous(m) if m == "request timed out"
    ));
}

#[test]
fn body_previews_are_cut_and_made_readable() {
    assert_eq!(truncate(b"hello world", 5), "hello");
    assert_eq!(truncate(b"short", 100), "short");
    assert_eq!(truncate(&[0xff, b'a'], 10), "\u{FFFD}a");
    assert_eq!(truncate("é".as_bytes(), 1), "\u{FFFD}");
    assert_eq!(truncate(b"", 3), "");
}

#[test]
fn agentless_products_go_to_their_intake() {
    let site = endpoint("datadoghq.com", Some("key"));
    let e = get_product_endpoint("instrumentation-telemetry-intake", &site);
    assert_eq!(e.url, "https://instrumentation-telemetry-intake.datadoghq.com/");
    assert_eq!(e.api_key.as_deref(), Some("key"));
    assert_eq!(e.test_token.as_deref(), Some("token"));

    let explicit = endpoint("https://custom.example:8443/v0.4/traces", Some("key"));
    assert_eq!(get_product_endpoint("trace.agent", &explicit).url, "https://custom.example:8443/");

    let agent = endpoint("http://localhost:8126/v0.4/traces", None);
    assert_eq!(get_product_endpoint("trace.agent", &agent).url, "http://localhost:8126/v0.4/traces");

    let relative = endpoint("/only/a/path", Some("key"));
    assert!(try_get_product_endpoint("trace.agent", &relative).is_none());
    assert_eq!(
        try_get_product_endpoint("trace.agent", &site).unwrap().url,
        "https://trace.agent.datadoghq.com/"
    );
}
