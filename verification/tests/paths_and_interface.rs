use dd_sidecar::interface::{DynamicInstrumentationConfigState, SerializedTracerHeaderTags};
use dd_sidecar::paths::{agent_route_path, join_paths, trim_end_matches_char, trim_start_matches_char};

#[test]
fn path_helpers() {
    assert_eq!(join_paths("/evp_proxy/v4/", "/api/v2/logs"), "/evp_proxy/v4/api/v2/logs");
    assert_eq!(join_paths("", ""), "/");
    assert_eq!(trim_end_matches_char("/a///", '/'), "/a");
    assert_eq!(trim_start_matches_char("///a/", '/'), "a/");
    assert_eq!(agent_route_path("/prefix/v0.5/traces/", "/evp_proxy/v2"), "/prefix/evp_proxy/v2");
    assert_eq!(agent_route_path("/v1.0/traces", "x"), "/x");
    assert_eq!(agent_route_path("/custom", "/info"), "/custom/info");
}

#[test]
fn header_tags_keep_their_bytes() {
    let tags = SerializedTracerHeaderTags::from_bytes(vec![1, 2, 3, 4, 5]);
    assert_eq!(tags.bytes(), &vec![1, 2, 3, 4, 5]);
    assert_ne!(DynamicInstrumentationConfigState::Enabled, DynamicInstrumentationConfigState::NotSet);
}
