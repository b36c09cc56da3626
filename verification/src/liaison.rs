//! Where the sidecar's IPC socket lives, who may have put it there, and
//! which server a client accepts.
use vstd::prelude::*;
use vstd::string::*;
use crate::text::{u64_to_decimal, decimal_digits, chars_of};
use crate::version::SIDECAR_VERSION;
use crate::auth::{current_uid, ROOT_UID};
use crate::config::{IpcMode, lemma_decimal_digits_value};
use crate::numparse::is_digit;

verus! {

/// Mode of a private liaison directory: group and others get nothing.
pub const PRIVATE_DIR_MODE: u32 = 0o700;

/// The path that `base.join(name)` gives (`std::path::PathBuf::join`): an
/// absolute `name` replaces `base`; otherwise one separator is inserted when
/// `base` is non-empty and does not already end with one.
pub open spec fn path_join(base: Seq<char>, name: Seq<char>) -> Seq<char> {
    if name.len() > 0 && name[0] == '/' {
        name
    } else if base.len() == 0 || base[base.len() - 1] == '/' {
        base + name
    } else {
        base + seq!['/'] + name
    }
}

/// `base.join(name)`.
pub fn join_path(base: &str, name: &str) -> (res: String)
    ensures
        res@ == path_join(base@, name@),
{
    let b = chars_of(base);
    let n = chars_of(name);
    if n.len() > 0 && n[0] == '/' {
        return name.to_owned();
    }
    let mut out = base.to_owned();
    if !(b.len() == 0 || b[b.len() - 1] == '/') {
        out.append("/");
        proof {
            reveal_strlit("/");
        }
    }
    out.append(name);
    out
}

/// How a liaison's socket is reached, and therefore how it is protected.
#[derive(Debug, Clone, Copy, PartialEq, Eq, Structural)]
pub enum SocketAccess {
    /// The socket lives in a directory private to the euid that its name embeds.
    OwnerOnly,
    /// Thread mode: the socket lives in /tmp under a name derived from the
    /// listener's pid; the socket file's owner is the evidence.
    ListenerOwned { listener_pid: u32 },
}

/// The mode a bound socket is given.
pub open spec fn socket_mode_of(a: SocketAccess) -> u32 {
    match a {
        SocketAccess::OwnerOnly => 0o600,
        SocketAccess::ListenerOwned { .. } => 0o666,
    }
}

/// The file facts that decide whether an existing socket may be trusted.
#[derive(Debug, Clone, Copy, PartialEq, Eq, Structural)]
pub struct SocketFileFacts {
    pub is_symlink: bool,
    pub is_socket: bool,
    pub owner_uid: u32,
}

/// Why an existing socket file is refused.
#[derive(Debug, Clone, Copy, PartialEq, Eq, Structural)]
pub enum SocketOwnerProblem {
    /// It is a symlink or not a socket, so the listener did not bind it.
    NotASocket,
    /// It is owned by a uid other than the listener's (and not root).
    ForeignOwner { owner: u32, expected: u32 },
    /// The listener process is gone, so its owner cannot be established.
    ListenerGone { listener_pid: u32 },
}

/// The verdict on a socket file that the listener running as `expected_uid`
/// should have bound.
pub open spec fn socket_owner_verdict_spec(facts: SocketFileFacts, expected_uid: u32) -> Result<(), SocketOwnerProblem> {
    if facts.is_symlink || !facts.is_socket {
        Err(SocketOwnerProblem::NotASocket)
    } else if facts.owner_uid != expected_uid && facts.owner_uid != ROOT_UID {
        Err(SocketOwnerProblem::ForeignOwner { owner: facts.owner_uid, expected: expected_uid })
    } else {
        Ok(())
    }
}

/// Refuses a socket file that the expected listener did not create: it must be
/// a socket (not a symlink) owned by `expected_uid` or by root.
pub fn socket_owner_verdict(facts: SocketFileFacts, expected_uid: u32) -> (res: Result<(), SocketOwnerProblem>)
    ensures
        res == socket_owner_verdict_spec(facts, expected_uid),
{
    if facts.is_symlink || !facts.is_socket {
        return Err(SocketOwnerProblem::NotASocket);
    }
    if facts.owner_uid != expected_uid && facts.owner_uid != ROOT_UID {
        return Err(SocketOwnerProblem::ForeignOwner { owner: facts.owner_uid, expected: expected_uid });
    }
    Ok(())
}

/// Refuses the socket of an in-process listener before connecting to it:
/// with the listener `listener_pid` gone (`listener_uid` is `None`) nothing
/// tells its owner apart from whoever took the name since; otherwise the
/// socket file must be one that listener's uid (or root) bound.
pub fn listener_socket_verdict(listener_pid: u32, listener_uid: Option<u32>, facts: SocketFileFacts) -> (res: Result<(), SocketOwnerProblem>)
    ensures
        res == (match listener_uid {
            None => Err(SocketOwnerProblem::ListenerGone { listener_pid }),
            Some(uid) => socket_owner_verdict_spec(facts, uid),
        }),
{
    match listener_uid {
        None => Err(SocketOwnerProblem::ListenerGone { listener_pid }),
        Some(uid) => socket_owner_verdict(facts, uid),
    }
}

impl SocketAccess {
    /// The mode for the bound socket: owner-only, or open to the listener's
    /// workers that run under another uid.
    pub fn socket_mode(self) -> (res: u32)
        ensures
            res == socket_mode_of(self),
    {
        match self {
            SocketAccess::OwnerOnly => 0o600,
            SocketAccess::ListenerOwned { .. } => 0o666,
        }
    }

    /// The uid that must own a socket already present where this liaison is
    /// about to bind, for a listener running as `own_uid`; `None` when the
    /// private directory already guarantees it.
    pub fn owner_required_before_bind(self, own_uid: u32) -> (res: Option<u32>)
        ensures
            res == (match self {
                SocketAccess::OwnerOnly => None,
                SocketAccess::ListenerOwned { .. } => Some(own_uid),
            }),
    {
        match self {
            SocketAccess::OwnerOnly => None,
            SocketAccess::ListenerOwned { .. } => Some(own_uid),
        }
    }
}

/// Whether a server running as `uid` may serve a client expecting `expected`:
/// root is accepted too, since it can read the client's memory regardless.
pub fn server_uid_is_acceptable(uid: u32, expected: u32) -> (res: bool)
    ensures
        res == (uid == expected || uid == 0),
{
    uid == expected || uid == 0
}

/// Why a client refuses the server at the other end of a socket.
#[derive(Debug, Clone, Copy, PartialEq, Eq, Structural)]
pub enum ServerProblem {
    /// The server runs as a uid other than the expected one (and not root).
    ForeignUid { uid: u32, expected: u32 },
}

/// The text of a refusal of the server at the abstract socket `path`,
/// served by the process `server_pid`.
pub open spec fn server_problem_text(p: ServerProblem, path: Seq<char>, server_pid: u32) -> Seq<char> {
    match p {
        ServerProblem::ForeignUid { uid, expected } => "refusing the sidecar at @"@ + path
            + ": it is served by pid "@ + decimal_digits(server_pid as nat) + " running as uid "@
            + decimal_digits(uid as nat) + ", not "@ + decimal_digits(expected as nat)
            + ". Another user may be squatting this socket name."@,
    }
}

impl ServerProblem {
    /// Why the server at the abstract socket `path`, served by the process
    /// `server_pid`, is refused: another user may be squatting the name.
    pub fn message(&self, path: &str, server_pid: u32) -> (res: String)
        ensures
            res@ == server_problem_text(*self, path@, server_pid),
    {
        let mut s = "refusing the sidecar at @".to_owned();
        s.append(path);
        match self {
            ServerProblem::ForeignUid { uid, expected } => {
                s.append(": it is served by pid ");
                append_decimal(&mut s, server_pid);
                s.append(" running as uid ");
                append_decimal(&mut s, *uid);
                s.append(", not ");
                append_decimal(&mut s, *expected);
                s.append(". Another user may be squatting this socket name.");
            },
        }
        s
    }
}

/// Refuses a server that does not run as the uid that should have created
/// it. An unknown expectation (`None`) is no basis to refuse.
pub fn server_verdict(expected: Option<u32>, server_uid: u32) -> (res: Result<(), ServerProblem>)
    ensures
        res == (match expected {
            None => Ok(()),
            Some(e) => if server_uid == e || server_uid == 0 {
                Ok(())
            } else {
                Err(ServerProblem::ForeignUid { uid: server_uid, expected: e })
            },
        }),
{
    match expected {
        None => Ok(()),
        Some(e) => {
            if server_uid_is_acceptable(server_uid, e) {
                Ok(())
            } else {
                Err(ServerProblem::ForeignUid { uid: server_uid, expected: e })
            }
        },
    }
}

/// The effective uid that identifies this process's sidecar (`geteuid`).
pub fn primary_sidecar_identifier() -> u32 {
    current_uid()
}

/// Appends the decimal digits of `n`.
fn append_decimal(s: &mut String, n: u32)
    ensures
        final(s)@ == old(s)@ + decimal_digits(n as nat),
{
    let d = u64_to_decimal(n as u64);
    s.append(d.as_str());
}

/// The socket file name of the shared sidecar of `uid`.
pub open spec fn shared_socket_name(uid: u32) -> Seq<char> {
    "libdd."@ + SIDECAR_VERSION@ + "@"@ + decimal_digits(uid as nat) + ".sock"@
}

/// The socket file name of the in-process listener of `pid`.
pub open spec fn pid_socket_name(pid: u32) -> Seq<char> {
    "libdd."@ + SIDECAR_VERSION@ + "@pid"@ + decimal_digits(pid as nat) + ".sock"@
}

/// The socket file name of a per-process sidecar.
pub open spec fn per_process_socket_name(pid: u32, random_id: u16) -> Seq<char> {
    "libdd."@ + SIDECAR_VERSION@ + "@proc"@ + decimal_digits(pid as nat) + "-"@ + decimal_digits(random_id as nat) + ".sock"@
}

/// The per-uid directory for sidecar sockets inside `temp_dir`.
pub open spec fn private_dir_of(temp_dir: Seq<char>, uid: u32) -> Seq<char> {
    path_join(temp_dir, "libdatadog-"@ + decimal_digits(uid as nat))
}

/// A liaison through a socket file in a directory.
pub struct SharedDirLiaison {
    socket_path: String,
    lock_path: String,
    access: SocketAccess,
}

impl SharedDirLiaison {
    /// The socket's path.
    pub closed spec fn spec_socket_path(&self) -> Seq<char> {
        self.socket_path@
    }

    /// The path of the lock held while the socket is created.
    pub closed spec fn spec_lock_path(&self) -> Seq<char> {
        self.lock_path@
    }

    /// How the socket is protected.
    pub closed spec fn spec_access(&self) -> SocketAccess {
        self.access
    }

    /// A liaison for the socket `socket_stem` + `.sock` inside `base_dir`; its
    /// lock file has the extension `.sock.lock`.
    fn at(base_dir: &str, socket_stem: String, access: SocketAccess) -> (res: Self)
        ensures
            res.spec_socket_path() == path_join(base_dir@, socket_stem@ + ".sock"@),
            res.spec_lock_path() == path_join(base_dir@, socket_stem@ + ".sock.lock"@),
            res.spec_access() == access,
    {
        let mut name = socket_stem.clone();
        name.append(".sock");
        let mut lock = socket_stem;
        lock.append(".sock.lock");
        SharedDirLiaison {
            socket_path: join_path(base_dir, name.as_str()),
            lock_path: join_path(base_dir, lock.as_str()),
            access,
        }
    }

    /// The liaison of the shared sidecar of `uid`, inside `base_dir`.
    pub fn new_for_uid(base_dir: &str, uid: u32) -> (res: Self)
        ensures
            res.spec_socket_path() == path_join(base_dir@, shared_socket_name(uid)),
            res.spec_lock_path() == path_join(base_dir@, shared_socket_name(uid) + ".lock"@),
            res.spec_access() == SocketAccess::OwnerOnly,
    {
        let mut stem = "libdd.".to_owned();
        stem.append(SIDECAR_VERSION);
        stem.append("@");
        append_decimal(&mut stem, uid);
        let r = Self::at(base_dir, stem, SocketAccess::OwnerOnly);
        assert(shared_socket_name(uid) =~= ("libdd."@ + SIDECAR_VERSION@ + "@"@ + decimal_digits(uid as nat)) + ".sock"@);
        assert(shared_socket_name(uid) + ".lock"@ =~= ("libdd."@ + SIDECAR_VERSION@ + "@"@ + decimal_digits(uid as nat)) + ".sock.lock"@) by {
            reveal_strlit(".sock");
            reveal_strlit(".lock");
            reveal_strlit(".sock.lock");
        }
        r
    }

    /// The liaison of this process's shared sidecar inside `base_dir`.
    pub fn new(base_dir: &str) -> (res: Self)
        ensures
            exists|uid: u32|
                #![trigger shared_socket_name(uid)]
                res.spec_socket_path() == path_join(base_dir@, shared_socket_name(uid))
                    && res.spec_lock_path() == path_join(base_dir@, shared_socket_name(uid) + ".lock"@),
            res.spec_access() == SocketAccess::OwnerOnly,
    {
        Self::new_for_uid(base_dir, primary_sidecar_identifier())
    }

    /// The liaison of the shared sidecar of `uid`, in its private directory
    /// under `temp_dir`.
    pub fn new_default_location(temp_dir: &str, uid: u32) -> (res: Self)
        ensures
            res.spec_socket_path() == path_join(private_dir_of(temp_dir@, uid), shared_socket_name(uid)),
            res.spec_lock_path() == path_join(private_dir_of(temp_dir@, uid), shared_socket_name(uid) + ".lock"@),
            res.spec_access() == SocketAccess::OwnerOnly,
    {
        let dir = Self::private_dir_path(temp_dir, uid);
        Self::new_for_uid(dir.as_str(), uid)
    }

    /// The directory for the sidecar sockets of `uid`.
    pub fn private_dir_path(temp_dir: &str, uid: u32) -> (res: String)
        ensures
            res@ == private_dir_of(temp_dir@, uid),
    {
        let mut name = "libdatadog-".to_owned();
        append_decimal(&mut name, uid);
        join_path(temp_dir, name.as_str())
    }

    /// The liaison of a per-process sidecar of `pid`, tagged with a random
    /// number so that a stale socket of an earlier process with the same pid
    /// is not adopted.
    pub fn ipc_per_process(temp_dir: &str, uid: u32, pid: u32, random_id: u16) -> (res: Self)
        ensures
            res.spec_socket_path() == path_join(private_dir_of(temp_dir@, uid), per_process_socket_name(pid, random_id)),
            res.spec_access() == SocketAccess::OwnerOnly,
    {
        let dir = Self::private_dir_path(temp_dir, uid);
        let mut stem = "libdd.".to_owned();
        stem.append(SIDECAR_VERSION);
        stem.append("@proc");
        append_decimal(&mut stem, pid);
        stem.append("-");
        append_decimal(&mut stem, random_id as u32);
        let r = Self::at(dir.as_str(), stem, SocketAccess::OwnerOnly);
        assert(per_process_socket_name(pid, random_id) =~= ("libdd."@ + SIDECAR_VERSION@ + "@proc"@ + decimal_digits(pid as nat) + "-"@ + decimal_digits(random_id as nat)) + ".sock"@);
        r
    }

    /// The liaison of the in-process (thread mode) listener of `pid`: in
    /// /tmp, so that workers running under another uid can reach it.
    pub fn ipc_for_pid(pid: u32) -> (res: Self)
        ensures
            res.spec_socket_path() == path_join("/tmp"@, pid_socket_name(pid)),
            res.spec_access() == (SocketAccess::ListenerOwned { listener_pid: pid }),
    {
        let mut stem = "libdd.".to_owned();
        stem.append(SIDECAR_VERSION);
        stem.append("@pid");
        append_decimal(&mut stem, pid);
        let r = Self::at("/tmp", stem, SocketAccess::ListenerOwned { listener_pid: pid });
        assert(pid_socket_name(pid) =~= ("libdd."@ + SIDECAR_VERSION@ + "@pid"@ + decimal_digits(pid as nat)) + ".sock"@);
        r
    }

    /// The filesystem socket path this liaison binds or connects to.
    pub fn socket_path(&self) -> (res: &str)
        ensures
            res@ == self.spec_socket_path(),
    {
        self.socket_path.as_str()
    }

    /// The lock file guarding socket creation.
    pub fn lock_path(&self) -> (res: &str)
        ensures
            res@ == self.spec_lock_path(),
    {
        self.lock_path.as_str()
    }

    /// How the socket is protected.
    pub fn access(&self) -> (res: SocketAccess)
        ensures
            res == self.spec_access(),
    {
        self.access
    }
}

/// Which uid must own the listener of an abstract socket.
#[derive(Debug, Clone, Copy, PartialEq, Eq, Structural)]
pub enum ExpectedServer {
    /// The name embeds `geteuid()`: only that uid may listen on it.
    OwnUid,
    /// Thread mode: the listener's uid comes from the process table.
    ListenerPid(u32),
}

/// The abstract socket name of the shared sidecar of `uid`.
pub open spec fn abstract_shared_name(uid: u32) -> Seq<char> {
    "libdatadog/"@ + SIDECAR_VERSION@ + "@"@ + decimal_digits(uid as nat) + ".sock"@
}

/// The abstract socket name of the per-process sidecar of `pid`.
pub open spec fn abstract_per_process_name(pid: u32) -> Seq<char> {
    "libdatadog/"@ + SIDECAR_VERSION@ + "."@ + decimal_digits(pid as nat) + ".sock"@
}

/// The abstract socket name of the in-process listener of `pid`.
pub open spec fn abstract_pid_name(pid: u32) -> Seq<char> {
    "libdatadog/"@ + SIDECAR_VERSION@ + "@pid"@ + decimal_digits(pid as nat) + ".sock"@
}

/// A liaison through a Linux abstract socket.
pub struct AbstractUnixSocketLiaison {
    path: String,
    expected_server: ExpectedServer,
}

fn abstract_name(infix: &str, n: u32) -> (res: String)
    ensures
        res@ == "libdatadog/"@ + SIDECAR_VERSION@ + infix@ + decimal_digits(n as nat) + ".sock"@,
{
    let mut s = "libdatadog/".to_owned();
    s.append(SIDECAR_VERSION);
    s.append(infix);
    append_decimal(&mut s, n);
    s.append(".sock");
    s
}

impl AbstractUnixSocketLiaison {
    /// The abstract socket name.
    pub closed spec fn spec_path(&self) -> Seq<char> {
        self.path@
    }

    /// Who must be listening.
    pub closed spec fn spec_expected_server(&self) -> ExpectedServer {
        self.expected_server
    }

    /// The shared sidecar of `uid`.
    pub fn ipc_shared(uid: u32) -> (res: Self)
        ensures
            res.spec_path() == abstract_shared_name(uid),
            res.spec_expected_server() == ExpectedServer::OwnUid,
    {
        AbstractUnixSocketLiaison { path: abstract_name("@", uid), expected_server: ExpectedServer::OwnUid }
    }

    /// The per-process sidecar of `pid`.
    pub fn ipc_per_process(pid: u32) -> (res: Self)
        ensures
            res.spec_path() == abstract_per_process_name(pid),
            res.spec_expected_server() == ExpectedServer::OwnUid,
    {
        AbstractUnixSocketLiaison { path: abstract_name(".", pid), expected_server: ExpectedServer::OwnUid }
    }

    /// The in-process (thread mode) listener of `pid`. The `pid` prefix keeps
    /// it apart from the shared sidecar of a uid equal to that pid.
    pub fn ipc_for_pid(pid: u32) -> (res: Self)
        ensures
            res.spec_path() == abstract_pid_name(pid),
            res.spec_expected_server() == ExpectedServer::ListenerPid(pid),
    {
        AbstractUnixSocketLiaison { path: abstract_name("@pid", pid), expected_server: ExpectedServer::ListenerPid(pid) }
    }

    /// The abstract socket name this liaison binds or connects to.
    pub fn path(&self) -> (res: &str)
        ensures
            res@ == self.spec_path(),
    {
        self.path.as_str()
    }

    /// Who must be listening on the socket.
    pub fn expected_server(&self) -> (res: ExpectedServer)
        ensures
            res == self.spec_expected_server(),
    {
        self.expected_server
    }
}

/// The abstract socket name the crashtracker connects to: the in-process
/// listener of `master_pid` when there is one, else the sidecar of `mode`.
pub open spec fn crashtracker_socket_name(master_pid: u32, mode: IpcMode, uid: u32, pid: u32) -> Seq<char> {
    if master_pid != 0 {
        abstract_pid_name(master_pid)
    } else {
        match mode {
            IpcMode::Shared => abstract_shared_name(uid),
            IpcMode::InstancePerProcess => abstract_per_process_name(pid),
        }
    }
}

/// The abstract socket name the Linux listener binds, for a process running
/// as `uid` with id `pid`.
pub fn crashtracker_ipc_socket_path(master_pid: u32, ipc_mode: IpcMode, uid: u32, pid: u32) -> (res: String)
    ensures
        res@ == crashtracker_socket_name(master_pid, ipc_mode, uid, pid),
{
    let liaison = if master_pid != 0 {
        AbstractUnixSocketLiaison::ipc_for_pid(master_pid)
    } else {
        match ipc_mode {
            IpcMode::Shared => AbstractUnixSocketLiaison::ipc_shared(uid),
            IpcMode::InstancePerProcess => AbstractUnixSocketLiaison::ipc_per_process(pid),
        }
    };
    liaison.path().to_owned()
}

/// Equal decimal representations are of equal numbers.
pub proof fn lemma_decimal_digits_injective(a: nat, b: nat)
    requires
        decimal_digits(a) == decimal_digits(b),
    ensures
        a == b,
{
    lemma_decimal_digits_value(a);
    lemma_decimal_digits_value(b);
}

/// In-process listeners of distinct pids never share a socket path in /tmp.
pub proof fn lemma_pid_socket_paths_distinct(p1: u32, p2: u32)
    requires
        p1 != p2,
    ensures
        path_join("/tmp"@, pid_socket_name(p1)) != path_join("/tmp"@, pid_socket_name(p2)),
{
    reveal_strlit("/tmp");
    reveal_strlit("libdd.");
    reveal_strlit("@pid");
    reveal_strlit(".sock");
    let pre = "libdd."@ + SIDECAR_VERSION@ + "@pid"@;
    let n1 = pid_socket_name(p1);
    let n2 = pid_socket_name(p2);
    assert(n1 =~= pre + decimal_digits(p1 as nat) + ".sock"@);
    assert(n2 =~= pre + decimal_digits(p2 as nat) + ".sock"@);
    assert(n1[0] == 'l');
    assert(n2[0] == 'l');
    if path_join("/tmp"@, n1) == path_join("/tmp"@, n2) {
        let j1 = path_join("/tmp"@, n1);
        let j2 = path_join("/tmp"@, n2);
        assert(j1 =~= "/tmp"@ + seq!['/'] + n1);
        assert(j2 =~= "/tmp"@ + seq!['/'] + n2);
        assert(n1 =~= j1.subrange(5, j1.len() as int));
        assert(n2 =~= j2.subrange(5, j2.len() as int));
        let d1 = decimal_digits(p1 as nat);
        let d2 = decimal_digits(p2 as nat);
        assert(d1 =~= n1.subrange(pre.len() as int, n1.len() - 5));
        assert(d2 =~= n2.subrange(pre.len() as int, n2.len() - 5));
        lemma_decimal_digits_injective(p1 as nat, p2 as nat);
    }
}

/// The abstract name of an in-process listener is never that of a shared
/// sidecar, whatever the pid and the uid (even when they are equal).
pub proof fn lemma_pid_name_is_not_shared_name(pid: u32, uid: u32)
    ensures
        abstract_pid_name(pid) != abstract_shared_name(uid),
{
    reveal_strlit("libdatadog/");
    reveal_strlit("@pid");
    reveal_strlit("@");
    reveal_strlit(".sock");
    let q = "libdatadog/"@ + SIDECAR_VERSION@;
    let a = abstract_pid_name(pid);
    let b = abstract_shared_name(uid);
    assert(a =~= q + "@pid"@ + decimal_digits(pid as nat) + ".sock"@);
    assert(b =~= q + "@"@ + decimal_digits(uid as nat) + ".sock"@);
    lemma_decimal_digits_value(uid as nat);
    let d = decimal_digits(uid as nat);
    assert(a[q.len() as int + 1] == 'p');
    assert(b[q.len() as int + 1] == d[0]);
    assert(is_digit(d[0]));
}

/// The Windows named-pipe namespace.
pub const PIPE_PATH: &'static str = "\\\\.\\pipe\\";

/// The named pipe for `prefix` and the user `identifier`.
pub open spec fn pipe_name(prefix: Seq<char>, identifier: Seq<char>) -> Seq<char> {
    PIPE_PATH@ + prefix + identifier + "-libdd."@ + SIDECAR_VERSION@
}

/// A liaison through a Windows named pipe.
pub struct NamedPipeLiaison {
    socket_path: String,
}

impl NamedPipeLiaison {
    /// The pipe's name.
    pub closed spec fn spec_socket_path(&self) -> Seq<char> {
        self.socket_path@
    }

    /// The pipe `\\.\pipe\{prefix}{identifier}-libdd.{version}`, where
    /// `identifier` names the user (its SID).
    pub fn new(prefix: &str, identifier: &str) -> (res: Self)
        ensures
            res.spec_socket_path() == pipe_name(prefix@, identifier@),
    {
        let mut s = PIPE_PATH.to_owned();
        s.append(prefix);
        s.append(identifier);
        s.append("-libdd.");
        s.append(SIDECAR_VERSION);
        NamedPipeLiaison { socket_path: s }
    }

    /// The shared pipe of the user `identifier`.
    pub fn new_default_location(identifier: &str) -> (res: Self)
        ensures
            res.spec_socket_path() == pipe_name("libdatadog_"@, identifier@),
    {
        Self::new("libdatadog_", identifier)
    }

    /// The pipe's name.
    pub fn socket_path(&self) -> (res: &str)
        ensures
            res@ == self.spec_socket_path(),
    {
        self.socket_path.as_str()
    }
}

} // verus!
