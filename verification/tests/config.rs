use dd_sidecar::config::{
    AppSecConfig, EnvConfig, FromEnv, IpcMode, LogMethod, ENV_IDLE_LINGER_TIME_SECS,
    ENV_SIDECAR_APPSEC_LOG_LEVEL, ENV_SIDECAR_CONNECT_TO_MASTER_PID, ENV_SIDECAR_IPC_MODE,
    ENV_SIDECAR_LOG_METHOD, ENV_SIDECAR_SELF_TELEMETRY, ENV_SIDECAR_WATCHDOG_MAX_MEMORY,
};

fn lookup<'a>(env: &'a [(&'static str, String)], key: &str) -> Option<&'a str> {
    env.iter().find(|(k, _)| *k == key).map(|(_, v)| v.as_str())
}

#[test]
fn environment_values_are_parsed() {
    assert_eq!(FromEnv::ipc_mode_from("instance_per_process"), IpcMode::InstancePerProcess);
    assert_eq!(FromEnv::ipc_mode_from("shared"), IpcMode::Shared);
    assert_eq!(FromEnv::ipc_mode_from("help"), IpcMode::Shared);
    assert_eq!(FromEnv::ipc_mode_from("bogus"), IpcMode::Shared);
    assert!(FromEnv::is_help("help"));

    assert!(matches!(FromEnv::log_method_from("stdout"), LogMethod::Stdout));
    assert!(matches!(FromEnv::log_method_from("stderr"), LogMethod::Stderr));
    assert!(matches!(FromEnv::log_method_from(""), LogMethod::Disabled));
    assert!(matches!(FromEnv::log_method_from("help"), LogMethod::Disabled));
    match FromEnv::log_method_from("file:///tmp/sidecar.log") {
        LogMethod::File(p) => assert_eq!(p, "/tmp/sidecar.log"),
        other => panic!("unexpected {other:?}"),
    }

    assert_eq!(FromEnv::idle_linger_secs_from("15"), 15);
    assert_eq!(FromEnv::idle_linger_secs_from("-1"), 60);
    assert_eq!(FromEnv::idle_linger_secs_from(""), 60);
    assert!(FromEnv::self_telemetry_from(Some("true")));
    assert!(FromEnv::self_telemetry_from(Some("1")));
    assert!(!FromEnv::self_telemetry_from(Some("yes")));
    assert!(!FromEnv::self_telemetry_from(None));
    assert_eq!(FromEnv::max_memory_from("1048576"), 1048576);
    assert_eq!(FromEnv::max_memory_from("lots"), 0);
    assert_eq!(FromEnv::connect_to_master_pid_from(Some("-42")), -42);
    assert_eq!(FromEnv::connect_to_master_pid_from(Some("x")), 0);
    assert_eq!(FromEnv::connect_to_master_pid_from(None), 0);
}

#[test]
fn appsec_configuration_needs_all_five_values() {
    let c = FromEnv::appsec_config_from(Some("/lib.so"), Some("/sock"), Some("/lock"), Some("/log"), Some("debug")).unwrap();
    assert_eq!(c.shared_lib_path, "/lib.so");
    assert_eq!(c.log_level, "debug");
    assert!(FromEnv::appsec_config_from(Some("/lib.so"), Some("/sock"), None, Some("/log"), Some("debug")).is_none());
    let env = c.to_env();
    assert_eq!(env.len(), 5);
    assert_eq!(lookup(&env, ENV_SIDECAR_APPSEC_LOG_LEVEL), Some("debug"));
}

#[test]
fn configuration_survives_the_environment() {
    let config = EnvConfig {
        ipc_mode: IpcMode::InstancePerProcess,
        log_method: LogMethod::File("/var/log/sidecar.log".to_owned()),
        idle_linger_secs: 90,
        self_telemetry: true,
        max_memory: 4096,
        connect_to_master_pid: 321,
        appsec_config: Some(AppSecConfig {
            shared_lib_path: "/lib.so".to_owned(),
            socket_file_path: "/sock".to_owned(),
            lock_file_path: "/lock".to_owned(),
            log_file_path: "/log".to_owned(),
            log_level: "info".to_owned(),
        }),
    };
    let env = config.to_env();
    assert_eq!(lookup(&env, ENV_SIDECAR_IPC_MODE), Some("instance_per_process"));
    assert_eq!(lookup(&env, ENV_SIDECAR_LOG_METHOD), Some("file:///var/log/sidecar.log"));
    assert_eq!(FromEnv::ipc_mode_from(lookup(&env, ENV_SIDECAR_IPC_MODE).unwrap()), IpcMode::InstancePerProcess);
    match FromEnv::log_method_from(lookup(&env, ENV_SIDECAR_LOG_METHOD).unwrap()) {
        LogMethod::File(p) => assert_eq!(p, "/var/log/sidecar.log"),
        other => panic!("unexpected {other:?}"),
    }
    assert_eq!(FromEnv::idle_linger_secs_from(lookup(&env, ENV_IDLE_LINGER_TIME_SECS).unwrap()), 90);
    assert!(FromEnv::self_telemetry_from(lookup(&env, ENV_SIDECAR_SELF_TELEMETRY)));
    assert_eq!(FromEnv::max_memory_from(lookup(&env, ENV_SIDECAR_WATCHDOG_MAX_MEMORY).unwrap()), 4096);
    assert_eq!(FromEnv::connect_to_master_pid_from(lookup(&env, ENV_SIDECAR_CONNECT_TO_MASTER_PID)), 321);
    assert_eq!(env.len(), 4 + 5 + 2);
}

#[test]
fn zero_limits_are_not_written() {
    let config = EnvConfig {
        ipc_mode: IpcMode::Shared,
        log_method: LogMethod::Disabled,
        idle_linger_secs: 60,
        self_telemetry: false,
        max_memory: 0,
        connect_to_master_pid: 0,
        appsec_config: None,
    };
    let env = config.to_env();
    assert_eq!(env.len(), 4);
    assert_eq!(lookup(&env, ENV_SIDECAR_SELF_TELEMETRY), Some("false"));
    assert_eq!(lookup(&env, ENV_SIDECAR_WATCHDOG_MAX_MEMORY), None);
    assert_eq!(IpcMode::Shared.env_value(), "shared");
    assert_eq!(LogMethod::Stderr.env_value(), "stderr");
}

fn read_back(config: &EnvConfig) -> EnvConfig {
    let entries: Vec<(String, String)> =
        config.to_env().into_iter().map(|(k, v)| (k.to_owned(), v)).collect();
    EnvConfig::from_entries(&entries)
}

#[test]
fn a_spawned_sidecar_reads_back_its_parents_configuration_by_name() {
    let config = EnvConfig {
        ipc_mode: IpcMode::InstancePerProcess,
        log_method: LogMethod::File("/var/log/sidecar.log".to_owned()),
        idle_linger_secs: 90,
        self_telemetry: true,
        max_memory: 4096,
        connect_to_master_pid: -5,
        appsec_config: Some(AppSecConfig {
            shared_lib_path: "/lib.so".to_owned(),
            socket_file_path: "/sock".to_owned(),
            lock_file_path: "/lock".to_owned(),
            log_file_path: "/log".to_owned(),
            log_level: "info".to_owned(),
        }),
    };
    let back = read_back(&config);
    assert_eq!(format!("{back:?}"), format!("{config:?}"));

    let plain = EnvConfig {
        ipc_mode: IpcMode::Shared,
        log_method: LogMethod::Stdout,
        idle_linger_secs: 0,
        self_telemetry: false,
        max_memory: 0,
        connect_to_master_pid: 0,
        appsec_config: None,
    };
    assert_eq!(format!("{:?}", read_back(&plain)), format!("{plain:?}"));

    // An empty environment gives the defaults.
    let defaults = EnvConfig::from_entries(&Vec::new());
    assert_eq!(defaults.ipc_mode, IpcMode::Shared);
    assert_eq!(defaults.idle_linger_secs, 60);
    assert!(defaults.appsec_config.is_none());
}
