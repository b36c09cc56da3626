use dd_sidecar::shm_names::{
    env_stats_shm_path, hashed_shm_path, path_for_telemetry, shm_limiter_path, SHM_NAME_LIMIT,
    STATS_SHM_PREFIX,
};

fn is_url_safe(c: char) -> bool {
    c.is_ascii_alphanumeric() || c == '-' || c == '_'
}

#[test]
fn hashed_names_are_prefix_id_and_hash() {
    assert_eq!(hashed_shm_path("/ddspsc-", 1000, "AAAAAAAAAAA"), "/ddspsc-1000-AAAAAAAAAAA");
    assert_eq!(
        hashed_shm_path(STATS_SHM_PREFIX, 4294967295, "AAAAAAAAAAA"),
        "/ddspsc-4294967295-AAAAAAAAAAA"
    );
    assert_eq!(hashed_shm_path("/ddtl", 0, "abc"), "/ddtl0-abc");
    let cut = hashed_shm_path("/a-very-long-prefix-for-testing", 4294967295, "AAAAAAAAAAA");
    assert_eq!(cut.len(), SHM_NAME_LIMIT);
    assert_eq!(cut, "/a-very-long-prefix-for-testing");
}

#[test]
fn stats_and_telemetry_names_fit_and_are_stable() {
    let a = env_stats_shm_path("prod", "1.0", "web");
    let b = env_stats_shm_path("prod", "1.0", "web");
    let c = env_stats_shm_path("prod", "1.1", "web");
    assert_eq!(a, b);
    assert_ne!(a, c);
    assert!(a.starts_with(STATS_SHM_PREFIX));
    assert!(a.starts_with("/ddspsc-"));
    assert!(a.len() <= SHM_NAME_LIMIT);
    let (id, hash) = a.strip_prefix(STATS_SHM_PREFIX).unwrap().split_once('-').unwrap();
    assert!(id.parse::<u32>().is_ok());
    assert_eq!(hash.len(), 11);
    assert!(hash.chars().all(is_url_safe));

    let t = path_for_telemetry("web", "prod");
    assert!(t.starts_with("/ddtl"));
    assert!(t.len() <= SHM_NAME_LIMIT);
    assert_ne!(t, path_for_telemetry("web", "staging"));
}

#[test]
fn limiter_name_carries_the_identifier() {
    let p = shm_limiter_path();
    let id = p.strip_prefix("/ddlimiters-").unwrap();
    assert!(id.parse::<u32>().is_ok());
}
