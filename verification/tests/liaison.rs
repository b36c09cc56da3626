use dd_sidecar::config::IpcMode;
use dd_sidecar::liaison::{
    crashtracker_ipc_socket_path, join_path, listener_socket_verdict, server_verdict,
    socket_owner_verdict,
    AbstractUnixSocketLiaison, ExpectedServer, NamedPipeLiaison, ServerProblem, SharedDirLiaison,
    SocketAccess, SocketFileFacts, SocketOwnerProblem,
};
use dd_sidecar::version::SIDECAR_VERSION;

#[test]
fn shared_dir_names() {
    let l = SharedDirLiaison::new_default_location("/tmp", 1000);
    assert_eq!(l.socket_path(), format!("/tmp/libdatadog-1000/libdd.{SIDECAR_VERSION}@1000.sock"));
    assert_eq!(l.lock_path(), format!("/tmp/libdatadog-1000/libdd.{SIDECAR_VERSION}@1000.sock.lock"));
    assert_eq!(l.access(), SocketAccess::OwnerOnly);
    let p = SharedDirLiaison::ipc_per_process("/tmp/", 1000, 42, 7);
    assert_eq!(p.socket_path(), format!("/tmp/libdatadog-1000/libdd.{SIDECAR_VERSION}@proc42-7.sock"));
    let t = SharedDirLiaison::ipc_for_pid(77);
    assert_eq!(t.access(), SocketAccess::ListenerOwned { listener_pid: 77 });
    assert!(t.socket_path().ends_with(&format!("libdd.{SIDECAR_VERSION}@pid77.sock")));
}

#[test]
fn path_join_follows_pathbuf() {
    assert_eq!(join_path("/tmp", "a"), "/tmp/a");
    assert_eq!(join_path("/tmp/", "a"), "/tmp/a");
    assert_eq!(join_path("", "a"), "a");
    assert_eq!(join_path("/tmp", "/abs"), "/abs");
}

#[test]
fn abstract_names() {
    assert_eq!(AbstractUnixSocketLiaison::ipc_shared(1000).path(), format!("libdatadog/{SIDECAR_VERSION}@1000.sock"));
    assert_eq!(AbstractUnixSocketLiaison::ipc_per_process(42).path(), format!("libdatadog/{SIDECAR_VERSION}.42.sock"));
    let thread = AbstractUnixSocketLiaison::ipc_for_pid(42);
    assert_eq!(thread.path(), format!("libdatadog/{SIDECAR_VERSION}@pid42.sock"));
    assert_eq!(thread.expected_server(), ExpectedServer::ListenerPid(42));
    assert_eq!(crashtracker_ipc_socket_path(9, IpcMode::Shared, 1000, 42), format!("libdatadog/{SIDECAR_VERSION}@pid9.sock"));
    assert_eq!(crashtracker_ipc_socket_path(0, IpcMode::InstancePerProcess, 1000, 42), format!("libdatadog/{SIDECAR_VERSION}.42.sock"));
    assert_eq!(crashtracker_ipc_socket_path(0, IpcMode::Shared, 1000, 42), format!("libdatadog/{SIDECAR_VERSION}@1000.sock"));
}

#[test]
fn pipe_names() {
    let l = NamedPipeLiaison::new_default_location("S-1-5-21");
    assert_eq!(l.socket_path(), format!("\\\\.\\pipe\\libdatadog_S-1-5-21-libdd.{SIDECAR_VERSION}"));
}

#[test]
fn socket_owner_and_server_checks() {
    let own = SocketFileFacts { is_symlink: false, is_socket: true, owner_uid: 1000 };
    assert_eq!(socket_owner_verdict(own, 1000), Ok(()));
    assert_eq!(socket_owner_verdict(SocketFileFacts { owner_uid: 0, ..own }, 1000), Ok(()));
    assert_eq!(
        socket_owner_verdict(SocketFileFacts { owner_uid: 1001, ..own }, 1000),
        Err(SocketOwnerProblem::ForeignOwner { owner: 1001, expected: 1000 })
    );
    assert_eq!(socket_owner_verdict(SocketFileFacts { is_symlink: true, ..own }, 1000), Err(SocketOwnerProblem::NotASocket));
    assert_eq!(socket_owner_verdict(SocketFileFacts { is_socket: false, ..own }, 1000), Err(SocketOwnerProblem::NotASocket));

    assert_eq!(server_verdict(Some(1000), 1000), Ok(()));
    assert_eq!(server_verdict(Some(1000), 0), Ok(()));
    assert_eq!(server_verdict(Some(1000), 1001), Err(ServerProblem::ForeignUid { uid: 1001, expected: 1000 }));
    assert_eq!(server_verdict(None, 1000), Ok(()));
    assert_eq!(SocketAccess::OwnerOnly.socket_mode(), 0o600);
    assert_eq!(SocketAccess::ListenerOwned { listener_pid: 1 }.socket_mode(), 0o666);
    assert_eq!(SocketAccess::OwnerOnly.owner_required_before_bind(5), None);
    assert_eq!(SocketAccess::ListenerOwned { listener_pid: 1 }.owner_required_before_bind(5), Some(5));
}

#[test]
fn abstract_client_refuses_a_server_of_another_uid() {
    let path = format!("libdatadog/{SIDECAR_VERSION}.clientauth.{}.sock", nix::unistd::getpid());
    // We listened, so the server runs as our own uid.
    let own_uid = nix::unistd::geteuid().as_raw();

    server_verdict(Some(own_uid), own_uid).expect("our own uid must be accepted");
    // Expecting uid 0 is met by a root server: the server here (ourselves)
    // is root exactly when this process is.
    if own_uid == 0 {
        server_verdict(Some(0), own_uid).expect("root must be accepted: it can read our memory regardless");
    } else {
        assert_eq!(server_verdict(Some(0), own_uid), Err(ServerProblem::ForeignUid { uid: own_uid, expected: 0 }));
    }
    server_verdict(Some(own_uid), 0).expect("root must be accepted: it can read our memory regardless");
    server_verdict(None, own_uid).expect("an unknown expectation is no basis to refuse");

    let err = server_verdict(Some(own_uid + 1), own_uid)
        .expect_err("a server running as another uid must be refused");
    let text = err.message(&path, nix::unistd::getpid().as_raw() as u32);
    assert!(text.contains("squatting"), "the error must name the likely cause, got: {text}");
}

#[test]
fn refusal_texts_name_what_was_found() {
    let p = ServerProblem::ForeignUid { uid: 1001, expected: 1000 };
    assert_eq!(
        p.message("libdatadog/x.sock", 55),
        "refusing the sidecar at @libdatadog/x.sock: it is served by pid 55 running as uid 1001, not 1000. Another user may be squatting this socket name."
    );
}

#[test]
fn connect_is_refused_when_the_listener_pid_is_gone() {
    let socket = SocketFileFacts { is_symlink: false, is_socket: true, owner_uid: 1000 };
    assert_eq!(
        listener_socket_verdict(u32::MAX, None, socket),
        Err(SocketOwnerProblem::ListenerGone { listener_pid: u32::MAX })
    );
    assert_eq!(listener_socket_verdict(9, Some(1000), socket), Ok(()));
    assert_eq!(
        listener_socket_verdict(9, Some(1001), socket),
        Err(SocketOwnerProblem::ForeignOwner { owner: 1000, expected: 1001 })
    );
}

#[test]
fn shared_liaison_names_its_lock_after_its_socket() {
    let l = SharedDirLiaison::new("/run/dd");
    assert_eq!(l.lock_path(), format!("{}.lock", l.socket_path()));
    assert!(l.socket_path().starts_with(&format!("/run/dd/libdd.{SIDECAR_VERSION}@")));
}

#[test]
fn listener_names_do_not_collide() {
    assert_ne!(SharedDirLiaison::ipc_for_pid(1).socket_path(), SharedDirLiaison::ipc_for_pid(11).socket_path());
    assert_ne!(AbstractUnixSocketLiaison::ipc_for_pid(33).path(), AbstractUnixSocketLiaison::ipc_shared(33).path());
}
