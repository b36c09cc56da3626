//! Sidecar configuration values passed through the environment: what a
//! parent writes for a spawned sidecar, and how the sidecar reads it back.
use vstd::prelude::*;
use vstd::string::*;
use crate::text::{str_eq, chars_of, u64_to_decimal, i64_to_decimal, decimal_digits, signed_decimal_digits, digit_char};
use crate::numparse::{parse_u64, parse_usize, parse_i32, parsed_u64, parsed_usize, parsed_i32, digits_value, all_digits, signed_decimal, unsigned_decimal, is_digit};

verus! {

/// Environment variable naming the IPC mode.
pub const ENV_SIDECAR_IPC_MODE: &'static str = "_DD_DEBUG_SIDECAR_IPC_MODE";
/// Value of the shared IPC mode.
pub const SIDECAR_IPC_MODE_SHARED: &'static str = "shared";
/// Value of the per-process IPC mode.
pub const SIDECAR_IPC_MODE_PER_PROCESS: &'static str = "instance_per_process";
/// Environment variable naming the log level.
pub const ENV_SIDECAR_LOG_LEVEL: &'static str = "_DD_DEBUG_SIDECAR_LOG_LEVEL";
/// Environment variable naming the log method.
pub const ENV_SIDECAR_LOG_METHOD: &'static str = "_DD_DEBUG_SIDECAR_LOG_METHOD";
/// Log method value: no logging.
pub const SIDECAR_LOG_METHOD_DISABLED: &'static str = "disabled";
/// Log method value: standard output.
pub const SIDECAR_LOG_METHOD_STDOUT: &'static str = "stdout";
/// Log method value: standard error.
pub const SIDECAR_LOG_METHOD_STDERR: &'static str = "stderr";
/// Value asking for the accepted values to be printed.
pub const SIDECAR_HELP: &'static str = "help";
/// Prefix of a log-file method value.
pub const LOG_FILE_PREFIX: &'static str = "file://";
/// Environment variable with the idle linger time in seconds.
pub const ENV_IDLE_LINGER_TIME_SECS: &'static str = "_DD_DEBUG_SIDECAR_IDLE_LINGER_TIME_SECS";
/// Idle linger time when none is configured.
pub const DEFAULT_IDLE_LINGER_TIME_SECS: u64 = 60;
/// Environment variable enabling the sidecar's own telemetry.
pub const ENV_SIDECAR_SELF_TELEMETRY: &'static str = "_DD_SIDECAR_SELF_TELEMETRY";
/// Environment variable with the watchdog's memory limit.
pub const ENV_SIDECAR_WATCHDOG_MAX_MEMORY: &'static str = "_DD_SIDECAR_WATCHDOG_MAX_MEMORY";
/// Environment variable with the pid of the master listener to connect to.
pub const ENV_SIDECAR_CONNECT_TO_MASTER_PID: &'static str = "_DD_SIDECAR_CONNECT_TO_MASTER_PID";

/// Environment variable: path of the AppSec helper library.
pub const ENV_SIDECAR_APPSEC_SHARED_LIB_PATH: &'static str = "_DD_SIDECAR_APPSEC_SHARED_LIB_PATH";

/// Environment variable: path of the AppSec helper's socket.
pub const ENV_SIDECAR_APPSEC_SOCKET_FILE_PATH: &'static str = "_DD_SIDECAR_APPSEC_SOCKET_FILE_PATH";

/// Environment variable: path of the AppSec helper's lock file.
pub const ENV_SIDECAR_APPSEC_LOCK_FILE_PATH: &'static str = "_DD_SIDECAR_APPSEC_LOCK_FILE_PATH";

/// Environment variable: path of the AppSec helper's log file.
pub const ENV_SIDECAR_APPSEC_LOG_FILE_PATH: &'static str = "_DD_SIDECAR_APPSEC_LOG_FILE_PATH";

/// Environment variable: the AppSec helper's log level.
pub const ENV_SIDECAR_APPSEC_LOG_LEVEL: &'static str = "_DD_SIDECAR_APPSEC_LOG_LEVEL";

/// How sidecar instances are shared between processes.
#[derive(Debug, Clone, Copy, PartialEq, Eq, Structural)]
pub enum IpcMode {
    Shared,
    InstancePerProcess,
}

/// Where the sidecar logs.
#[derive(Debug)]
pub enum LogMethod {
    Stdout,
    Stderr,
    File(String),
    Disabled,
}

/// Spec view of [`LogMethod`].
pub enum LogMethodView {
    Stdout,
    Stderr,
    File(Seq<char>),
    Disabled,
}

impl View for LogMethod {
    type V = LogMethodView;

    open spec fn view(&self) -> LogMethodView {
        match self {
            LogMethod::Stdout => LogMethodView::Stdout,
            LogMethod::Stderr => LogMethodView::Stderr,
            LogMethod::File(p) => LogMethodView::File(p@),
            LogMethod::Disabled => LogMethodView::Disabled,
        }
    }
}

/// The environment value of an IPC mode.
pub open spec fn ipc_mode_value(m: IpcMode) -> Seq<char> {
    match m {
        IpcMode::Shared => SIDECAR_IPC_MODE_SHARED@,
        IpcMode::InstancePerProcess => SIDECAR_IPC_MODE_PER_PROCESS@,
    }
}

/// The IPC mode an environment value selects; anything unknown (including
/// `help`) selects the default, shared.
pub open spec fn parse_ipc_mode(v: Seq<char>) -> IpcMode {
    if v == SIDECAR_IPC_MODE_PER_PROCESS@ {
        IpcMode::InstancePerProcess
    } else {
        IpcMode::Shared
    }
}

/// The environment value of a log method.
pub open spec fn log_method_value(m: LogMethodView) -> Seq<char> {
    match m {
        LogMethodView::Disabled => SIDECAR_LOG_METHOD_DISABLED@,
        LogMethodView::Stdout => SIDECAR_LOG_METHOD_STDOUT@,
        LogMethodView::Stderr => SIDECAR_LOG_METHOD_STDERR@,
        LogMethodView::File(p) => LOG_FILE_PREFIX@ + p,
    }
}

/// `v` starts with `p`.
pub open spec fn starts_with(v: Seq<char>, p: Seq<char>) -> bool {
    p.len() <= v.len() && v.take(p.len() as int) == p
}

/// The log method an environment value selects; anything unknown (including
/// `help`) selects the default, disabled.
pub open spec fn parse_log_method(v: Seq<char>) -> LogMethodView {
    if v == SIDECAR_LOG_METHOD_DISABLED@ {
        LogMethodView::Disabled
    } else if v == SIDECAR_LOG_METHOD_STDOUT@ {
        LogMethodView::Stdout
    } else if v == SIDECAR_LOG_METHOD_STDERR@ {
        LogMethodView::Stderr
    } else if v == SIDECAR_HELP@ {
        LogMethodView::Disabled
    } else if starts_with(v, LOG_FILE_PREFIX@) {
        LogMethodView::File(v.skip(LOG_FILE_PREFIX@.len() as int))
    } else {
        LogMethodView::Disabled
    }
}

impl IpcMode {
    /// The environment value of this mode.
    pub fn env_value(self) -> (res: &'static str)
        ensures
            res@ == ipc_mode_value(self),
    {
        match self {
            IpcMode::Shared => SIDECAR_IPC_MODE_SHARED,
            IpcMode::InstancePerProcess => SIDECAR_IPC_MODE_PER_PROCESS,
        }
    }
}

impl LogMethod {
    /// The environment value of this method (`file://<path>` for a file).
    pub fn env_value(&self) -> (res: String)
        ensures
            res@ == log_method_value(self@),
    {
        match self {
            LogMethod::Disabled => SIDECAR_LOG_METHOD_DISABLED.to_owned(),
            LogMethod::Stdout => SIDECAR_LOG_METHOD_STDOUT.to_owned(),
            LogMethod::Stderr => SIDECAR_LOG_METHOD_STDERR.to_owned(),
            LogMethod::File(p) => {
                let mut s = LOG_FILE_PREFIX.to_owned();
                s.append(p.as_str());
                s
            },
        }
    }
}

/// `v` starts with `p`.
fn str_starts_with(v: &str, p: &str) -> (res: bool)
    ensures
        res == starts_with(v@, p@),
{
    let a = chars_of(v);
    let b = chars_of(p);
    if b.len() > a.len() {
        return false;
    }
    let mut i: usize = 0;
    while i < b.len()
        invariant
            a@ == v@,
            b@ == p@,
            b@.len() <= a@.len(),
            i <= b@.len(),
            forall|j: int| 0 <= j < i ==> a@[j] == b@[j],
        decreases b@.len() - i,
    {
        if a[i] != b[i] {
            assert(v@.take(p@.len() as int)[i as int] != p@[i as int]);
            return false;
        }
        i = i + 1;
    }
    assert(v@.take(p@.len() as int) =~= p@);
    true
}

/// Where the AppSec helper lives and logs.
#[derive(Debug)]
pub struct AppSecConfig {
    pub shared_lib_path: String,
    pub socket_file_path: String,
    pub lock_file_path: String,
    pub log_file_path: String,
    pub log_level: String,
}

/// Spec view of [`AppSecConfig`].
pub struct AppSecConfigView {
    pub shared_lib_path: Seq<char>,
    pub socket_file_path: Seq<char>,
    pub lock_file_path: Seq<char>,
    pub log_file_path: Seq<char>,
    pub log_level: Seq<char>,
}

impl View for AppSecConfig {
    type V = AppSecConfigView;

    open spec fn view(&self) -> AppSecConfigView {
        AppSecConfigView {
            shared_lib_path: self.shared_lib_path@,
            socket_file_path: self.socket_file_path@,
            lock_file_path: self.lock_file_path@,
            log_file_path: self.log_file_path@,
            log_level: self.log_level@,
        }
    }
}

/// The environment entries of an AppSec configuration.
pub open spec fn appsec_entries(c: AppSecConfigView) -> Seq<(Seq<char>, Seq<char>)> {
    seq![
        (ENV_SIDECAR_APPSEC_SHARED_LIB_PATH@, c.shared_lib_path),
        (ENV_SIDECAR_APPSEC_SOCKET_FILE_PATH@, c.socket_file_path),
        (ENV_SIDECAR_APPSEC_LOCK_FILE_PATH@, c.lock_file_path),
        (ENV_SIDECAR_APPSEC_LOG_FILE_PATH@, c.log_file_path),
        (ENV_SIDECAR_APPSEC_LOG_LEVEL@, c.log_level),
    ]
}

/// The text of environment entries.
pub open spec fn entries_text(v: Seq<(&'static str, String)>) -> Seq<(Seq<char>, Seq<char>)> {
    Seq::new(v.len(), |i: int| (v[i].0@, v[i].1@))
}

impl AppSecConfig {
    /// The environment entries a spawned sidecar reads this configuration from.
    pub fn to_env(&self) -> (res: Vec<(&'static str, String)>)
        ensures
            entries_text(res@) == appsec_entries(self@),
    {
        let mut res: Vec<(&'static str, String)> = Vec::new();
        self.push_env(&mut res);
        assert(entries_text(res@) =~= appsec_entries(self@));
        res
    }

    /// Appends this configuration's environment entries to `entries`.
    pub fn push_env(&self, entries: &mut Vec<(&'static str, String)>)
        ensures
            entries_text(final(entries)@) == entries_text(old(entries)@) + appsec_entries(self@),
    {
        entries.push((ENV_SIDECAR_APPSEC_SHARED_LIB_PATH, self.shared_lib_path.clone()));
        entries.push((ENV_SIDECAR_APPSEC_SOCKET_FILE_PATH, self.socket_file_path.clone()));
        entries.push((ENV_SIDECAR_APPSEC_LOCK_FILE_PATH, self.lock_file_path.clone()));
        entries.push((ENV_SIDECAR_APPSEC_LOG_FILE_PATH, self.log_file_path.clone()));
        entries.push((ENV_SIDECAR_APPSEC_LOG_LEVEL, self.log_level.clone()));
        assert(entries_text(entries@) =~= entries_text(old(entries)@) + appsec_entries(self@));
    }
}

/// Reads the sidecar's configuration from environment values. Values that
/// are absent count as empty.
pub struct FromEnv {}

impl FromEnv {
    /// The IPC mode selected by `value`.
    pub fn ipc_mode_from(value: &str) -> (res: IpcMode)
        ensures
            res == parse_ipc_mode(value@),
    {
        if str_eq(value, SIDECAR_IPC_MODE_PER_PROCESS) {
            IpcMode::InstancePerProcess
        } else {
            IpcMode::Shared
        }
    }

    /// Whether `value` asks for the accepted values to be printed.
    pub fn is_help(value: &str) -> (res: bool)
        ensures
            res == (value@ == SIDECAR_HELP@),
    {
        str_eq(value, SIDECAR_HELP)
    }

    /// The log method selected by `value`.
    pub fn log_method_from(value: &str) -> (res: LogMethod)
        ensures
            res@ == parse_log_method(value@),
    {
        if str_eq(value, SIDECAR_LOG_METHOD_DISABLED) {
            LogMethod::Disabled
        } else if str_eq(value, SIDECAR_LOG_METHOD_STDOUT) {
            LogMethod::Stdout
        } else if str_eq(value, SIDECAR_LOG_METHOD_STDERR) {
            LogMethod::Stderr
        } else if str_eq(value, SIDECAR_HELP) {
            LogMethod::Disabled
        } else if str_starts_with(value, LOG_FILE_PREFIX) {
            let n = chars_of(value).len();
            proof {
                reveal_strlit("file://");
            }
            LogMethod::File(value.substring_char(7, n).to_owned())
        } else {
            LogMethod::Disabled
        }
    }

    /// The idle linger time, in seconds, selected by `value`: a decimal
    /// number, else the default of 60.
    pub fn idle_linger_secs_from(value: &str) -> (res: u64)
        ensures
            res == (match parsed_u64(value@) {
                Some(n) => n,
                None => DEFAULT_IDLE_LINGER_TIME_SECS,
            }),
    {
        match parse_u64(value) {
            Some(n) => n,
            None => DEFAULT_IDLE_LINGER_TIME_SECS,
        }
    }

    /// Whether self-telemetry is enabled: the value is `true` or `1`.
    pub fn self_telemetry_from(value: Option<&str>) -> (res: bool)
        ensures
            res == (match value {
                Some(v) => v@ == "true"@ || v@ == "1"@,
                None => false,
            }),
    {
        match value {
            Some(v) => str_eq(v, "true") || str_eq(v, "1"),
            None => false,
        }
    }

    /// The watchdog's memory limit: a decimal number, else 0 (no limit).
    pub fn max_memory_from(value: &str) -> (res: usize)
        ensures
            res == (match parsed_usize(value@) {
                Some(n) => n,
                None => 0,
            }),
    {
        match parse_usize(value) {
            Some(n) => n,
            None => 0,
        }
    }

    /// The AppSec configuration: present only when all five values are.
    pub fn appsec_config_from(
        shared_lib_path: Option<&str>,
        socket_file_path: Option<&str>,
        lock_file_path: Option<&str>,
        log_file_path: Option<&str>,
        log_level: Option<&str>,
    ) -> (res: Option<AppSecConfig>)
        ensures
            res is Some <==> (shared_lib_path is Some && socket_file_path is Some && lock_file_path is Some
                && log_file_path is Some && log_level is Some),
            res matches Some(c) ==> c@ == (AppSecConfigView {
                shared_lib_path: shared_lib_path->0@,
                socket_file_path: socket_file_path->0@,
                lock_file_path: lock_file_path->0@,
                log_file_path: log_file_path->0@,
                log_level: log_level->0@,
            }),
    {
        match (shared_lib_path, socket_file_path, lock_file_path, log_file_path, log_level) {
            (Some(a), Some(b), Some(c), Some(d), Some(e)) => Some(
                AppSecConfig {
                    shared_lib_path: a.to_owned(),
                    socket_file_path: b.to_owned(),
                    lock_file_path: c.to_owned(),
                    log_file_path: d.to_owned(),
                    log_level: e.to_owned(),
                },
            ),
            _ => None,
        }
    }

    /// The master listener's pid: a decimal number, else 0 (none).
    pub fn connect_to_master_pid_from(value: Option<&str>) -> (res: i32)
        ensures
            res == (match value {
                Some(v) => match parsed_i32(v@) {
                    Some(n) => n,
                    None => 0,
                },
                None => 0,
            }),
    {
        match value {
            Some(v) => match parse_i32(v) {
                Some(n) => n,
                None => 0,
            },
            None => 0,
        }
    }
}

/// The configuration values a parent hands to a spawned sidecar through its
/// environment.
#[derive(Debug)]
pub struct EnvConfig {
    pub ipc_mode: IpcMode,
    pub log_method: LogMethod,
    pub idle_linger_secs: u64,
    pub self_telemetry: bool,
    pub max_memory: usize,
    pub connect_to_master_pid: i32,
    pub appsec_config: Option<AppSecConfig>,
}

/// The optional AppSec configuration's view.
pub open spec fn appsec_view(c: Option<AppSecConfig>) -> Option<AppSecConfigView> {
    match c {
        Some(c) => Some(c@),
        None => None,
    }
}

/// The environment entries written for a configuration; the AppSec entries
/// when it has one, the memory limit and the master pid only when non-zero.
pub open spec fn env_entries(
    ipc_mode: IpcMode,
    log_method: LogMethodView,
    idle_linger_secs: u64,
    self_telemetry: bool,
    max_memory: usize,
    connect_to_master_pid: i32,
    appsec: Option<AppSecConfigView>,
) -> Seq<(Seq<char>, Seq<char>)> {
    let first = seq![
        (ENV_SIDECAR_IPC_MODE@, ipc_mode_value(ipc_mode)),
        (ENV_SIDECAR_LOG_METHOD@, log_method_value(log_method)),
        (ENV_IDLE_LINGER_TIME_SECS@, decimal_digits(idle_linger_secs as nat)),
        (ENV_SIDECAR_SELF_TELEMETRY@, if self_telemetry { "true"@ } else { "false"@ }),
    ];
    let base = match appsec {
        Some(c) => first + appsec_entries(c),
        None => first,
    };
    let with_memory = if max_memory != 0 {
        base.push((ENV_SIDECAR_WATCHDOG_MAX_MEMORY@, decimal_digits(max_memory as nat)))
    } else {
        base
    };
    if connect_to_master_pid != 0 {
        with_memory.push((ENV_SIDECAR_CONNECT_TO_MASTER_PID@, signed_decimal_digits(connect_to_master_pid as int)))
    } else {
        with_memory
    }
}

impl EnvConfig {
    /// The environment entries a spawned sidecar reads this configuration from.
    pub fn to_env(&self) -> (res: Vec<(&'static str, String)>)
        ensures
            entries_text(res@) == env_entries(
                self.ipc_mode,
                self.log_method@,
                self.idle_linger_secs,
                self.self_telemetry,
                self.max_memory,
                self.connect_to_master_pid,
                appsec_view(self.appsec_config),
            ),
    {
        let ghost spec_entries = env_entries(
            self.ipc_mode,
            self.log_method@,
            self.idle_linger_secs,
            self.self_telemetry,
            self.max_memory,
            self.connect_to_master_pid,
            appsec_view(self.appsec_config),
        );
        let mut res: Vec<(&'static str, String)> = Vec::new();
        res.push((ENV_SIDECAR_IPC_MODE, self.ipc_mode.env_value().to_owned()));
        res.push((ENV_SIDECAR_LOG_METHOD, self.log_method.env_value()));
        res.push((ENV_IDLE_LINGER_TIME_SECS, u64_to_decimal(self.idle_linger_secs)));
        res.push(
            (
                ENV_SIDECAR_SELF_TELEMETRY,
                if self.self_telemetry {
                    "true".to_owned()
                } else {
                    "false".to_owned()
                },
            ),
        );
        proof {
            reveal_strlit("true");
            reveal_strlit("false");
        }
        let ghost first = entries_text(res@);
        match &self.appsec_config {
            Some(c) => c.push_env(&mut res),
            None => {},
        }
        let ghost based = entries_text(res@);
        if self.max_memory != 0 {
            res.push((ENV_SIDECAR_WATCHDOG_MAX_MEMORY, u64_to_decimal(self.max_memory as u64)));
            assert(entries_text(res@) =~= based.push(
                (ENV_SIDECAR_WATCHDOG_MAX_MEMORY@, decimal_digits(self.max_memory as nat)),
            ));
        }
        let ghost with_memory = entries_text(res@);
        if self.connect_to_master_pid != 0 {
            res.push(
                (
                    ENV_SIDECAR_CONNECT_TO_MASTER_PID,
                    i64_to_decimal(self.connect_to_master_pid as i64),
                ),
            );
            assert(entries_text(res@) =~= with_memory.push(
                (
                    ENV_SIDECAR_CONNECT_TO_MASTER_PID@,
                    signed_decimal_digits(self.connect_to_master_pid as int),
                ),
            ));
        }
        res
    }
}

/// The decimal representation of `n` is a non-empty digit string whose value is `n`.
pub proof fn lemma_decimal_digits_value(n: nat)
    ensures
        all_digits(decimal_digits(n)),
        digits_value(decimal_digits(n)) == n,
    decreases n,
{
    if n < 10 {
        let s = decimal_digits(n);
        assert(s.drop_last() =~= Seq::<char>::empty());
        assert(digits_value(s.drop_last()) == 0);
    } else {
        lemma_decimal_digits_value(n / 10);
        let s = decimal_digits(n / 10);
        let d: nat = n % 10;
        let t = s.push(digit_char(d));
        assert(t.drop_last() =~= s);
        assert(t.last() == digit_char(d));
        assert(digit_char(d) as int - '0' as int == d);
        assert(n == (n / 10) * 10 + d);
        assert forall|i: int| 0 <= i < t.len() implies is_digit(#[trigger] t[i]) by {
            if i < s.len() {
                assert(t[i] == s[i]);
            }
        }
    }
}

/// What a spawned sidecar reads back is what its parent wrote: the IPC mode,
/// the log method, the idle linger time, self-telemetry, the memory limit and
/// the master pid all survive the trip through the environment.
pub proof fn lemma_env_round_trip(
    ipc_mode: IpcMode,
    log_method: LogMethodView,
    idle_linger_secs: u64,
    self_telemetry: bool,
    max_memory: usize,
    connect_to_master_pid: i32,
)
    ensures
        parse_ipc_mode(ipc_mode_value(ipc_mode)) == ipc_mode,
        parse_log_method(log_method_value(log_method)) == log_method,
        parsed_u64(decimal_digits(idle_linger_secs as nat)) == Some(idle_linger_secs),
        parsed_usize(decimal_digits(max_memory as nat)) == Some(max_memory),
        parsed_i32(signed_decimal_digits(connect_to_master_pid as int)) == Some(connect_to_master_pid),
{
    reveal_strlit("shared");
    reveal_strlit("instance_per_process");
    reveal_strlit("disabled");
    reveal_strlit("stdout");
    reveal_strlit("stderr");
    reveal_strlit("help");
    reveal_strlit("file://");
    if let LogMethodView::File(p) = log_method {
        let v = LOG_FILE_PREFIX@ + p;
        assert(v[0] == 'f');
        assert(v != SIDECAR_LOG_METHOD_DISABLED@ && v != SIDECAR_LOG_METHOD_STDOUT@ && v != SIDECAR_LOG_METHOD_STDERR@ && v != SIDECAR_HELP@) by {
            assert(SIDECAR_LOG_METHOD_DISABLED@[0] == 'd');
            assert(SIDECAR_LOG_METHOD_STDOUT@[0] == 's');
            assert(SIDECAR_LOG_METHOD_STDERR@[0] == 's');
            assert(SIDECAR_HELP@[0] == 'h');
        }
        assert(v.take(7) =~= LOG_FILE_PREFIX@);
        assert(v.skip(7) =~= p);
    }
    assert(SIDECAR_IPC_MODE_SHARED@ != SIDECAR_IPC_MODE_PER_PROCESS@) by {
        assert(SIDECAR_IPC_MODE_SHARED@[0] != SIDECAR_IPC_MODE_PER_PROCESS@[0]);
    }
    assert(SIDECAR_LOG_METHOD_STDOUT@ != SIDECAR_LOG_METHOD_DISABLED@) by {
        assert(SIDECAR_LOG_METHOD_STDOUT@[0] != SIDECAR_LOG_METHOD_DISABLED@[0]);
    }
    assert(SIDECAR_LOG_METHOD_STDERR@ != SIDECAR_LOG_METHOD_DISABLED@) by {
        assert(SIDECAR_LOG_METHOD_STDERR@[0] != SIDECAR_LOG_METHOD_DISABLED@[0]);
    }
    assert(SIDECAR_LOG_METHOD_STDERR@ != SIDECAR_LOG_METHOD_STDOUT@) by {
        assert(SIDECAR_LOG_METHOD_STDERR@[3] != SIDECAR_LOG_METHOD_STDOUT@[3]);
    }
    lemma_decimal_digits_value(idle_linger_secs as nat);
    lemma_decimal_digits_value(max_memory as nat);
    let pid = connect_to_master_pid as int;
    if pid < 0 {
        lemma_decimal_digits_value((-pid) as nat);
        let s = signed_decimal_digits(pid);
        assert(s.drop_first() =~= decimal_digits((-pid) as nat));
    } else {
        lemma_decimal_digits_value(pid as nat);
        let s = decimal_digits(pid as nat);
        assert(is_digit(s[0]));
    }
    let d = decimal_digits(idle_linger_secs as nat);
    assert(is_digit(d[0]));
    let m = decimal_digits(max_memory as nat);
    assert(is_digit(m[0]));
}

/// The value of the first entry named `name`.
pub open spec fn env_lookup(entries: Seq<(Seq<char>, Seq<char>)>, name: Seq<char>) -> Option<Seq<char>>
    decreases entries.len(),
{
    if entries.len() == 0 {
        None
    } else if entries[0].0 == name {
        Some(entries[0].1)
    } else {
        env_lookup(entries.drop_first(), name)
    }
}

/// A value, or the empty text when it is absent.
pub open spec fn or_empty(v: Option<Seq<char>>) -> Seq<char> {
    match v {
        Some(t) => t,
        None => Seq::empty(),
    }
}

/// The text of (name, value) pairs.
pub open spec fn pairs_text(v: Seq<(String, String)>) -> Seq<(Seq<char>, Seq<char>)> {
    Seq::new(v.len(), |i: int| (v[i].0@, v[i].1@))
}

/// Spec view of an [`EnvConfig`].
pub struct EnvConfigView {
    pub ipc_mode: IpcMode,
    pub log_method: LogMethodView,
    pub idle_linger_secs: u64,
    pub self_telemetry: bool,
    pub max_memory: usize,
    pub connect_to_master_pid: i32,
    pub appsec_config: Option<AppSecConfigView>,
}

impl View for EnvConfig {
    type V = EnvConfigView;

    open spec fn view(&self) -> EnvConfigView {
        EnvConfigView {
            ipc_mode: self.ipc_mode,
            log_method: self.log_method@,
            idle_linger_secs: self.idle_linger_secs,
            self_telemetry: self.self_telemetry,
            max_memory: self.max_memory,
            connect_to_master_pid: self.connect_to_master_pid,
            appsec_config: appsec_view(self.appsec_config),
        }
    }
}

/// The configuration a sidecar reads from the environment `e`, each value
/// looked up by its variable's name (see the `FromEnv` readers).
pub open spec fn config_from_entries(e: Seq<(Seq<char>, Seq<char>)>) -> EnvConfigView {
    let shared = env_lookup(e, ENV_SIDECAR_APPSEC_SHARED_LIB_PATH@);
    let socket = env_lookup(e, ENV_SIDECAR_APPSEC_SOCKET_FILE_PATH@);
    let lock = env_lookup(e, ENV_SIDECAR_APPSEC_LOCK_FILE_PATH@);
    let log = env_lookup(e, ENV_SIDECAR_APPSEC_LOG_FILE_PATH@);
    let level = env_lookup(e, ENV_SIDECAR_APPSEC_LOG_LEVEL@);
    EnvConfigView {
        ipc_mode: parse_ipc_mode(or_empty(env_lookup(e, ENV_SIDECAR_IPC_MODE@))),
        log_method: parse_log_method(or_empty(env_lookup(e, ENV_SIDECAR_LOG_METHOD@))),
        idle_linger_secs: match parsed_u64(or_empty(env_lookup(e, ENV_IDLE_LINGER_TIME_SECS@))) {
            Some(n) => n,
            None => DEFAULT_IDLE_LINGER_TIME_SECS,
        },
        self_telemetry: match env_lookup(e, ENV_SIDECAR_SELF_TELEMETRY@) {
            Some(v) => v == "true"@ || v == "1"@,
            None => false,
        },
        max_memory: match parsed_usize(or_empty(env_lookup(e, ENV_SIDECAR_WATCHDOG_MAX_MEMORY@))) {
            Some(n) => n,
            None => 0,
        },
        connect_to_master_pid: match env_lookup(e, ENV_SIDECAR_CONNECT_TO_MASTER_PID@) {
            Some(v) => match parsed_i32(v) {
                Some(n) => n,
                None => 0,
            },
            None => 0,
        },
        appsec_config: if shared is Some && socket is Some && lock is Some && log is Some
            && level is Some {
            Some(
                AppSecConfigView {
                    shared_lib_path: shared->0,
                    socket_file_path: socket->0,
                    lock_file_path: lock->0,
                    log_file_path: log->0,
                    log_level: level->0,
                },
            )
        } else {
            None
        },
    }
}

/// Looking up past entries of other names.
proof fn lemma_lookup_skip(e: Seq<(Seq<char>, Seq<char>)>, i: int, name: Seq<char>)
    requires
        0 <= i <= e.len(),
        forall|j: int| 0 <= j < i ==> (#[trigger] e[j]).0 != name,
    ensures
        env_lookup(e, name) == env_lookup(e.skip(i), name),
    decreases i,
{
    if i == 0 {
        assert(e.skip(0) =~= e);
    } else {
        lemma_lookup_skip(e, i - 1, name);
        let t = e.skip(i - 1);
        assert(t.len() > 0);
        assert(t[0] == e[i - 1]);
        assert(t[0].0 != name);
        assert(t.drop_first() =~= e.skip(i));
    }
}

/// When every entry named `name` holds `v`, a lookup of `name` finds `v`
/// if there is such an entry, and nothing otherwise.
pub proof fn lemma_lookup_unique(e: Seq<(Seq<char>, Seq<char>)>, name: Seq<char>, v: Seq<char>)
    requires
        forall|j: int| 0 <= j < e.len() && (#[trigger] e[j]).0 == name ==> e[j].1 == v,
    ensures
        env_lookup(e, name) == (if exists|j: int| 0 <= j < e.len() && (#[trigger] e[j]).0 == name {
            Some(v)
        } else {
            None
        }),
    decreases e.len(),
{
    if e.len() > 0 {
        let t = e.drop_first();
        assert forall|j: int| 0 <= j < t.len() && (#[trigger] t[j]).0 == name implies t[j].1 == v by {
            assert(t[j] == e[j + 1]);
        }
        lemma_lookup_unique(t, name, v);
        if e[0].0 != name {
            if exists|j: int| 0 <= j < e.len() && (#[trigger] e[j]).0 == name {
                let j = choose|j: int| 0 <= j < e.len() && (#[trigger] e[j]).0 == name;
                assert(t[j - 1] == e[j]);
            }
            if exists|j: int| 0 <= j < t.len() && (#[trigger] t[j]).0 == name {
                let j = choose|j: int| 0 <= j < t.len() && (#[trigger] t[j]).0 == name;
                assert(t[j] == e[j + 1]);
            }
        }
    }
}

/// The value of the first entry of `entries` named `name`.
fn lookup_entry<'a>(entries: &'a Vec<(String, String)>, name: &str) -> (res: Option<&'a str>)
    ensures
        match res {
            Some(v) => env_lookup(pairs_text(entries@), name@) == Some(v@),
            None => env_lookup(pairs_text(entries@), name@) is None,
        },
{
    let ghost e = pairs_text(entries@);
    let mut i: usize = 0;
    while i < entries.len()
        invariant
            i <= entries@.len(),
            e == pairs_text(entries@),
            forall|j: int| 0 <= j < i ==> (#[trigger] e[j]).0 != name@,
        decreases entries@.len() - i,
    {
        if str_eq(entries[i].0.as_str(), name) {
            proof {
                lemma_lookup_skip(e, i as int, name@);
                assert(e.skip(i as int)[0] == e[i as int]);
            }
            return Some(entries[i].1.as_str());
        }
        i = i + 1;
    }
    proof {
        lemma_lookup_skip(e, i as int, name@);
        assert(e.skip(i as int).len() == 0);
    }
    None
}

impl EnvConfig {
    /// Reads the configuration from environment `entries` (name, value),
    /// each value looked up by its variable's name.
    pub fn from_entries(entries: &Vec<(String, String)>) -> (res: EnvConfig)
        ensures
            res@ == config_from_entries(pairs_text(entries@)),
    {
        let empty = "";
        proof {
            reveal_strlit("");
            assert(empty@ =~= Seq::<char>::empty());
        }
        let ipc = match lookup_entry(entries, ENV_SIDECAR_IPC_MODE) {
            Some(v) => v,
            None => empty,
        };
        let method = match lookup_entry(entries, ENV_SIDECAR_LOG_METHOD) {
            Some(v) => v,
            None => empty,
        };
        let linger = match lookup_entry(entries, ENV_IDLE_LINGER_TIME_SECS) {
            Some(v) => v,
            None => empty,
        };
        let memory = match lookup_entry(entries, ENV_SIDECAR_WATCHDOG_MAX_MEMORY) {
            Some(v) => v,
            None => empty,
        };
        let res = EnvConfig {
            ipc_mode: FromEnv::ipc_mode_from(ipc),
            log_method: FromEnv::log_method_from(method),
            idle_linger_secs: FromEnv::idle_linger_secs_from(linger),
            self_telemetry: FromEnv::self_telemetry_from(lookup_entry(entries, ENV_SIDECAR_SELF_TELEMETRY)),
            max_memory: FromEnv::max_memory_from(memory),
            connect_to_master_pid: FromEnv::connect_to_master_pid_from(
                lookup_entry(entries, ENV_SIDECAR_CONNECT_TO_MASTER_PID),
            ),
            appsec_config: FromEnv::appsec_config_from(
                lookup_entry(entries, ENV_SIDECAR_APPSEC_SHARED_LIB_PATH),
                lookup_entry(entries, ENV_SIDECAR_APPSEC_SOCKET_FILE_PATH),
                lookup_entry(entries, ENV_SIDECAR_APPSEC_LOCK_FILE_PATH),
                lookup_entry(entries, ENV_SIDECAR_APPSEC_LOG_FILE_PATH),
                lookup_entry(entries, ENV_SIDECAR_APPSEC_LOG_LEVEL),
            ),
        };
        res
    }
}

/// The variables a sidecar's configuration is passed in have distinct names.
proof fn lemma_env_names_distinct()
    ensures
        ENV_SIDECAR_IPC_MODE@ != ENV_SIDECAR_LOG_METHOD@,
        ENV_SIDECAR_IPC_MODE@ != ENV_IDLE_LINGER_TIME_SECS@,
        ENV_SIDECAR_IPC_MODE@ != ENV_SIDECAR_SELF_TELEMETRY@,
        ENV_SIDECAR_IPC_MODE@ != ENV_SIDECAR_WATCHDOG_MAX_MEMORY@,
        ENV_SIDECAR_IPC_MODE@ != ENV_SIDECAR_CONNECT_TO_MASTER_PID@,
        ENV_SIDECAR_IPC_MODE@ != ENV_SIDECAR_APPSEC_SHARED_LIB_PATH@,
        ENV_SIDECAR_IPC_MODE@ != ENV_SIDECAR_APPSEC_SOCKET_FILE_PATH@,
        ENV_SIDECAR_IPC_MODE@ != ENV_SIDECAR_APPSEC_LOCK_FILE_PATH@,
        ENV_SIDECAR_IPC_MODE@ != ENV_SIDECAR_APPSEC_LOG_FILE_PATH@,
        ENV_SIDECAR_IPC_MODE@ != ENV_SIDECAR_APPSEC_LOG_LEVEL@,
        ENV_SIDECAR_LOG_METHOD@ != ENV_IDLE_LINGER_TIME_SECS@,
        ENV_SIDECAR_LOG_METHOD@ != ENV_SIDECAR_SELF_TELEMETRY@,
        ENV_SIDECAR_LOG_METHOD@ != ENV_SIDECAR_WATCHDOG_MAX_MEMORY@,
        ENV_SIDECAR_LOG_METHOD@ != ENV_SIDECAR_CONNECT_TO_MASTER_PID@,
        ENV_SIDECAR_LOG_METHOD@ != ENV_SIDECAR_APPSEC_SHARED_LIB_PATH@,
        ENV_SIDECAR_LOG_METHOD@ != ENV_SIDECAR_APPSEC_SOCKET_FILE_PATH@,
        ENV_SIDECAR_LOG_METHOD@ != ENV_SIDECAR_APPSEC_LOCK_FILE_PATH@,
        ENV_SIDECAR_LOG_METHOD@ != ENV_SIDECAR_APPSEC_LOG_FILE_PATH@,
        ENV_SIDECAR_LOG_METHOD@ != ENV_SIDECAR_APPSEC_LOG_LEVEL@,
        ENV_IDLE_LINGER_TIME_SECS@ != ENV_SIDECAR_SELF_TELEMETRY@,
        ENV_IDLE_LINGER_TIME_SECS@ != ENV_SIDECAR_WATCHDOG_MAX_MEMORY@,
        ENV_IDLE_LINGER_TIME_SECS@ != ENV_SIDECAR_CONNECT_TO_MASTER_PID@,
        ENV_IDLE_LINGER_TIME_SECS@ != ENV_SIDECAR_APPSEC_SHARED_LIB_PATH@,
        ENV_IDLE_LINGER_TIME_SECS@ != ENV_SIDECAR_APPSEC_SOCKET_FILE_PATH@,
        ENV_IDLE_LINGER_TIME_SECS@ != ENV_SIDECAR_APPSEC_LOCK_FILE_PATH@,
        ENV_IDLE_LINGER_TIME_SECS@ != ENV_SIDECAR_APPSEC_LOG_FILE_PATH@,
        ENV_IDLE_LINGER_TIME_SECS@ != ENV_SIDECAR_APPSEC_LOG_LEVEL@,
        ENV_SIDECAR_SELF_TELEMETRY@ != ENV_SIDECAR_WATCHDOG_MAX_MEMORY@,
        ENV_SIDECAR_SELF_TELEMETRY@ != ENV_SIDECAR_CONNECT_TO_MASTER_PID@,
        ENV_SIDECAR_SELF_TELEMETRY@ != ENV_SIDECAR_APPSEC_SHARED_LIB_PATH@,
        ENV_SIDECAR_SELF_TELEMETRY@ != ENV_SIDECAR_APPSEC_SOCKET_FILE_PATH@,
        ENV_SIDECAR_SELF_TELEMETRY@ != ENV_SIDECAR_APPSEC_LOCK_FILE_PATH@,
        ENV_SIDECAR_SELF_TELEMETRY@ != ENV_SIDECAR_APPSEC_LOG_FILE_PATH@,
        ENV_SIDECAR_SELF_TELEMETRY@ != ENV_SIDECAR_APPSEC_LOG_LEVEL@,
        ENV_SIDECAR_WATCHDOG_MAX_MEMORY@ != ENV_SIDECAR_CONNECT_TO_MASTER_PID@,
        ENV_SIDECAR_WATCHDOG_MAX_MEMORY@ != ENV_SIDECAR_APPSEC_SHARED_LIB_PATH@,
        ENV_SIDECAR_WATCHDOG_MAX_MEMORY@ != ENV_SIDECAR_APPSEC_SOCKET_FILE_PATH@,
        ENV_SIDECAR_WATCHDOG_MAX_MEMORY@ != ENV_SIDECAR_APPSEC_LOCK_FILE_PATH@,
        ENV_SIDECAR_WATCHDOG_MAX_MEMORY@ != ENV_SIDECAR_APPSEC_LOG_FILE_PATH@,
        ENV_SIDECAR_WATCHDOG_MAX_MEMORY@ != ENV_SIDECAR_APPSEC_LOG_LEVEL@,
        ENV_SIDECAR_CONNECT_TO_MASTER_PID@ != ENV_SIDECAR_APPSEC_SHARED_LIB_PATH@,
        ENV_SIDECAR_CONNECT_TO_MASTER_PID@ != ENV_SIDECAR_APPSEC_SOCKET_FILE_PATH@,
        ENV_SIDECAR_CONNECT_TO_MASTER_PID@ != ENV_SIDECAR_APPSEC_LOCK_FILE_PATH@,
        ENV_SIDECAR_CONNECT_TO_MASTER_PID@ != ENV_SIDECAR_APPSEC_LOG_FILE_PATH@,
        ENV_SIDECAR_CONNECT_TO_MASTER_PID@ != ENV_SIDECAR_APPSEC_LOG_LEVEL@,
        ENV_SIDECAR_APPSEC_SHARED_LIB_PATH@ != ENV_SIDECAR_APPSEC_SOCKET_FILE_PATH@,
        ENV_SIDECAR_APPSEC_SHARED_LIB_PATH@ != ENV_SIDECAR_APPSEC_LOCK_FILE_PATH@,
        ENV_SIDECAR_APPSEC_SHARED_LIB_PATH@ != ENV_SIDECAR_APPSEC_LOG_FILE_PATH@,
        ENV_SIDECAR_APPSEC_SHARED_LIB_PATH@ != ENV_SIDECAR_APPSEC_LOG_LEVEL@,
        ENV_SIDECAR_APPSEC_SOCKET_FILE_PATH@ != ENV_SIDECAR_APPSEC_LOCK_FILE_PATH@,
        ENV_SIDECAR_APPSEC_SOCKET_FILE_PATH@ != ENV_SIDECAR_APPSEC_LOG_FILE_PATH@,
        ENV_SIDECAR_APPSEC_SOCKET_FILE_PATH@ != ENV_SIDECAR_APPSEC_LOG_LEVEL@,
        ENV_SIDECAR_APPSEC_LOCK_FILE_PATH@ != ENV_SIDECAR_APPSEC_LOG_FILE_PATH@,
        ENV_SIDECAR_APPSEC_LOCK_FILE_PATH@ != ENV_SIDECAR_APPSEC_LOG_LEVEL@,
        ENV_SIDECAR_APPSEC_LOG_FILE_PATH@ != ENV_SIDECAR_APPSEC_LOG_LEVEL@,
{
    reveal_strlit("_DD_DEBUG_SIDECAR_IPC_MODE");
    assert(ENV_SIDECAR_IPC_MODE@.len() == 26);
    reveal_strlit("_DD_DEBUG_SIDECAR_LOG_METHOD");
    assert(ENV_SIDECAR_LOG_METHOD@.len() == 28);
    reveal_strlit("_DD_DEBUG_SIDECAR_IDLE_LINGER_TIME_SECS");
    assert(ENV_IDLE_LINGER_TIME_SECS@.len() == 39);
    reveal_strlit("_DD_SIDECAR_SELF_TELEMETRY");
    assert(ENV_SIDECAR_SELF_TELEMETRY@.len() == 26);
    reveal_strlit("_DD_SIDECAR_WATCHDOG_MAX_MEMORY");
    assert(ENV_SIDECAR_WATCHDOG_MAX_MEMORY@.len() == 31);
    reveal_strlit("_DD_SIDECAR_CONNECT_TO_MASTER_PID");
    assert(ENV_SIDECAR_CONNECT_TO_MASTER_PID@.len() == 33);
    reveal_strlit("_DD_SIDECAR_APPSEC_SHARED_LIB_PATH");
    assert(ENV_SIDECAR_APPSEC_SHARED_LIB_PATH@.len() == 34);
    reveal_strlit("_DD_SIDECAR_APPSEC_SOCKET_FILE_PATH");
    assert(ENV_SIDECAR_APPSEC_SOCKET_FILE_PATH@.len() == 35);
    reveal_strlit("_DD_SIDECAR_APPSEC_LOCK_FILE_PATH");
    assert(ENV_SIDECAR_APPSEC_LOCK_FILE_PATH@.len() == 33);
    reveal_strlit("_DD_SIDECAR_APPSEC_LOG_FILE_PATH");
    assert(ENV_SIDECAR_APPSEC_LOG_FILE_PATH@.len() == 32);
    reveal_strlit("_DD_SIDECAR_APPSEC_LOG_LEVEL");
    assert(ENV_SIDECAR_APPSEC_LOG_LEVEL@.len() == 28);
    assert(ENV_SIDECAR_IPC_MODE@[4] != ENV_SIDECAR_SELF_TELEMETRY@[4]);
    assert(ENV_SIDECAR_LOG_METHOD@[4] != ENV_SIDECAR_APPSEC_LOG_LEVEL@[4]);
    assert(ENV_SIDECAR_CONNECT_TO_MASTER_PID@[12] != ENV_SIDECAR_APPSEC_LOCK_FILE_PATH@[12]);
}

/// What a spawned sidecar reads back from its environment, each value by
/// its variable's name, is the configuration its parent wrote there.
pub proof fn lemma_env_round_trip_by_name(c: EnvConfigView)
    ensures
        config_from_entries(
            env_entries(
                c.ipc_mode,
                c.log_method,
                c.idle_linger_secs,
                c.self_telemetry,
                c.max_memory,
                c.connect_to_master_pid,
                c.appsec_config,
            ),
        ) == c,
{
    let e = env_entries(
        c.ipc_mode,
        c.log_method,
        c.idle_linger_secs,
        c.self_telemetry,
        c.max_memory,
        c.connect_to_master_pid,
        c.appsec_config,
    );
    lemma_env_round_trip(
        c.ipc_mode,
        c.log_method,
        c.idle_linger_secs,
        c.self_telemetry,
        c.max_memory,
        c.connect_to_master_pid,
    );
    lemma_env_names_distinct();
    reveal_strlit("true");
    reveal_strlit("false");
    reveal_strlit("1");
    assert("false"@.len() == 5 && "true"@.len() == 4 && "1"@.len() == 1);
    assert(e[1] == (ENV_SIDECAR_LOG_METHOD@, log_method_value(c.log_method)));
    assert(e[2] == (ENV_IDLE_LINGER_TIME_SECS@, decimal_digits(c.idle_linger_secs as nat)));
    assert(e[3].0 == ENV_SIDECAR_SELF_TELEMETRY@);
    let base_len: int = if c.appsec_config is Some { 9 } else { 4 };
    if c.appsec_config is Some {
        let a = c.appsec_config->0;
        assert(e[4] == (ENV_SIDECAR_APPSEC_SHARED_LIB_PATH@, a.shared_lib_path));
        assert(e[5] == (ENV_SIDECAR_APPSEC_SOCKET_FILE_PATH@, a.socket_file_path));
        assert(e[6] == (ENV_SIDECAR_APPSEC_LOCK_FILE_PATH@, a.lock_file_path));
        assert(e[7] == (ENV_SIDECAR_APPSEC_LOG_FILE_PATH@, a.log_file_path));
        assert(e[8] == (ENV_SIDECAR_APPSEC_LOG_LEVEL@, a.log_level));
    }
    if c.max_memory != 0 {
        assert(e[base_len].0 == ENV_SIDECAR_WATCHDOG_MAX_MEMORY@);
    }
    if c.connect_to_master_pid != 0 {
        let k: int = if c.max_memory != 0 { base_len + 1 } else { base_len };
        assert(e[k].0 == ENV_SIDECAR_CONNECT_TO_MASTER_PID@);
    }
    lemma_lookup_unique(e, ENV_SIDECAR_IPC_MODE@, ipc_mode_value(c.ipc_mode));
    lemma_lookup_unique(e, ENV_SIDECAR_LOG_METHOD@, log_method_value(c.log_method));
    lemma_lookup_unique(e, ENV_IDLE_LINGER_TIME_SECS@, decimal_digits(c.idle_linger_secs as nat));
    lemma_lookup_unique(e, ENV_SIDECAR_SELF_TELEMETRY@, (if c.self_telemetry { "true"@ } else { "false"@ }));
    lemma_lookup_unique(e, ENV_SIDECAR_WATCHDOG_MAX_MEMORY@, decimal_digits(c.max_memory as nat));
    lemma_lookup_unique(e, ENV_SIDECAR_CONNECT_TO_MASTER_PID@, signed_decimal_digits(c.connect_to_master_pid as int));
    lemma_lookup_unique(e, ENV_SIDECAR_APPSEC_SHARED_LIB_PATH@, c.appsec_config->0.shared_lib_path);
    lemma_lookup_unique(e, ENV_SIDECAR_APPSEC_SOCKET_FILE_PATH@, c.appsec_config->0.socket_file_path);
    lemma_lookup_unique(e, ENV_SIDECAR_APPSEC_LOCK_FILE_PATH@, c.appsec_config->0.lock_file_path);
    lemma_lookup_unique(e, ENV_SIDECAR_APPSEC_LOG_FILE_PATH@, c.appsec_config->0.log_file_path);
    lemma_lookup_unique(e, ENV_SIDECAR_APPSEC_LOG_LEVEL@, c.appsec_config->0.log_level);
}

} // verus!
