use dd_sidecar::auth::{
    AuthPolicy, AuthorizationStep, ConnectionAuthorizer, Decision, PeerCredentials, ROOT_UID,
};

fn peer(pid: u32, uid: u32) -> PeerCredentials {
    PeerCredentials { pid, uid, gid: uid }
}

fn other_uid(own: u32) -> u32 {
    if own == 12345 {
        12346
    } else {
        12345
    }
}

fn decided(step: AuthorizationStep) -> Decision {
    match step {
        AuthorizationStep::Decided(d) => d,
        AuthorizationStep::CheckAncestry { .. } => panic!("no decision"),
    }
}

#[test]
fn os_enforced_allows_everyone() {
    let auth = ConnectionAuthorizer::new(AuthPolicy::OsEnforced);
    let other = other_uid(auth.own_uid());
    assert_eq!(decided(auth.authorize(&peer(1, other))), Decision::Allow);
}

#[test]
fn own_uid_serves_only_that_uid() {
    let auth = ConnectionAuthorizer::new(AuthPolicy::OwnUid);
    let own = auth.own_uid();

    assert_eq!(decided(auth.authorize(&peer(99, own))), Decision::Allow);
    assert_eq!(decided(auth.authorize(&peer(98, ROOT_UID))), Decision::Allow);
    assert_eq!(decided(auth.authorize(&peer(97, other_uid(own)))), Decision::Deny);
}

#[test]
fn host_descendants_need_an_ancestry_check_only_as_root() {
    let auth = ConnectionAuthorizer::with_uid(AuthPolicy::HostDescendants { host_pid: 7 }, 1000);
    assert_eq!(auth.authorize(&peer(1, 1000)), AuthorizationStep::Decided(Decision::Allow));
    assert_eq!(auth.authorize(&peer(1, ROOT_UID)), AuthorizationStep::Decided(Decision::Allow));
    assert_eq!(auth.authorize(&peer(55, 2000)), AuthorizationStep::Decided(Decision::Deny));

    let root = ConnectionAuthorizer::with_uid(AuthPolicy::HostDescendants { host_pid: 7 }, ROOT_UID);
    assert_eq!(
        root.authorize(&peer(55, 2000)),
        AuthorizationStep::CheckAncestry { pid: 55, ancestor: 7 }
    );
    assert_eq!(root.decide(&peer(55, 2000), true), Decision::Allow);
    assert_eq!(root.decide(&peer(55, 2000), false), Decision::Deny);
}

#[test]
fn spawned_sidecar_serves_its_own_uid() {
    let auth = ConnectionAuthorizer::for_spawned_sidecar();
    let own = auth.own_uid();
    assert_eq!(decided(auth.authorize(&peer(3, own))), Decision::Allow);
    assert_eq!(decided(auth.authorize(&peer(3, other_uid(own)))), Decision::Deny);
}

#[test]
fn authorizers_use_this_process_identity() {
    let euid = nix::unistd::geteuid().as_raw();
    assert_eq!(ConnectionAuthorizer::new(AuthPolicy::OwnUid).own_uid(), euid);
    let listener = ConnectionAuthorizer::for_in_process_listener();
    assert_eq!(listener.own_uid(), euid);
    let stranger = if euid == 4242 { 4243 } else { 4242 };
    let step = listener.authorize(&peer(55, stranger));
    if euid == ROOT_UID {
        assert_eq!(step, AuthorizationStep::CheckAncestry { pid: 55, ancestor: nix::unistd::getpid().as_raw() as u32 });
    } else {
        assert_eq!(step, AuthorizationStep::Decided(Decision::Deny));
    }
}
