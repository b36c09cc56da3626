//! Authentication of incoming IPC connections.
//!
//! Which peers a listener accepts depends on where it lives: an
//! out-of-process sidecar serves its own uid; a listener thread inside the
//! host process also serves the host's forked workers that dropped to another
//! uid; on Windows the operating system already restricts the pipe.
use vstd::prelude::*;

verus! {

/// uid 0 is always accepted: a root peer can already read this process's
/// memory, so refusing it protects nothing.
pub const ROOT_UID: u32 = 0;

/// The credentials of the process at the other end of a connection.
#[derive(Debug, Clone, Copy, PartialEq, Eq, Structural)]
pub struct PeerCredentials {
    pub pid: u32,
    pub uid: u32,
    pub gid: u32,
}

/// Which peers a listener accepts.
#[derive(Debug, Clone, Copy, PartialEq, Eq, Structural)]
pub enum AuthPolicy {
    /// Out-of-process sidecar: peers must hold this process's own uid.
    OwnUid,
    /// In-process listener: peers must share the host's uid or descend from `host_pid`.
    HostDescendants { host_pid: u32 },
    /// The operating system already restricts who can connect.
    OsEnforced,
}

/// The outcome of authenticating one connection.
#[derive(Debug, Clone, Copy, PartialEq, Eq, Structural)]
pub enum Decision {
    /// Serve the connection.
    Allow,
    /// Drop the connection.
    Deny,
}

/// What authenticating a connection needs next.
#[derive(Debug, Clone, Copy, PartialEq, Eq, Structural)]
pub enum AuthorizationStep {
    /// The decision is made.
    Decided(Decision),
    /// The decision depends on whether process `pid` descends from `ancestor`:
    /// look it up and call [`ConnectionAuthorizer::decide`].
    CheckAncestry { pid: u32, ancestor: u32 },
}

/// The effective uid of this process (`geteuid`).
#[verifier::external_body]
pub(crate) fn current_uid() -> u32 {
    nix::unistd::geteuid().as_raw()
}

/// The id of this process (`getpid`).
#[verifier::external_body]
pub(crate) fn current_pid() -> u32 {
    nix::unistd::getpid().as_raw() as u32
}

/// The decision for `peer` under `policy`, for a listener running as
/// `own_uid`, given whether `peer` descends from the host process.
pub open spec fn decision_for(policy: AuthPolicy, own_uid: u32, peer: PeerCredentials, descends: bool) -> Decision {
    match policy {
        AuthPolicy::OsEnforced => Decision::Allow,
        AuthPolicy::OwnUid => if peer.uid == own_uid || peer.uid == ROOT_UID {
            Decision::Allow
        } else {
            Decision::Deny
        },
        AuthPolicy::HostDescendants { host_pid } => if peer.uid == own_uid || peer.uid == ROOT_UID {
            Decision::Allow
        } else if own_uid == ROOT_UID && descends {
            Decision::Allow
        } else {
            Decision::Deny
        },
    }
}

/// The lineage of a peer matters only for a root in-process listener facing a
/// foreign uid.
pub open spec fn needs_ancestry(policy: AuthPolicy, own_uid: u32, peer: PeerCredentials) -> bool {
    policy is HostDescendants && peer.uid != own_uid && peer.uid != ROOT_UID && own_uid == ROOT_UID
}

/// Authenticates the connections of one listener.
pub struct ConnectionAuthorizer {
    policy: AuthPolicy,
    /// euid of the process hosting the listener.
    own_uid: u32,
}

impl ConnectionAuthorizer {
    /// The policy of this authorizer.
    pub closed spec fn spec_policy(&self) -> AuthPolicy {
        self.policy
    }

    /// The uid this listener runs as.
    pub closed spec fn spec_own_uid(&self) -> u32 {
        self.own_uid
    }

    /// An authorizer for `policy`, serving the current effective uid.
    pub fn new(policy: AuthPolicy) -> (res: Self)
        ensures
            res.spec_policy() == policy,
    {
        ConnectionAuthorizer { policy, own_uid: current_uid() }
    }

    /// An authorizer for `policy`, for a listener running as `own_uid`.
    pub fn with_uid(policy: AuthPolicy, own_uid: u32) -> (res: Self)
        ensures
            res.spec_policy() == policy,
            res.spec_own_uid() == own_uid,
    {
        ConnectionAuthorizer { policy, own_uid }
    }

    /// The authorizer of an out-of-process sidecar (unix), which serves its own uid.
    pub fn for_spawned_sidecar() -> (res: Self)
        ensures
            res.spec_policy() == AuthPolicy::OwnUid,
    {
        Self::new(AuthPolicy::OwnUid)
    }

    /// The authorizer of a listener running inside the process it serves
    /// (unix): peers must descend from this process.
    pub fn for_in_process_listener() -> (res: Self)
        ensures
            res.spec_policy() is HostDescendants,
    {
        Self::new(AuthPolicy::HostDescendants { host_pid: current_pid() })
    }

    /// The uid this listener serves.
    pub fn own_uid(&self) -> (res: u32)
        ensures
            res == self.spec_own_uid(),
    {
        self.own_uid
    }

    /// Authenticates one connection, or says which ancestry fact is needed.
    pub fn authorize(&self, peer: &PeerCredentials) -> (res: AuthorizationStep)
        ensures
            needs_ancestry(self.spec_policy(), self.spec_own_uid(), *peer) ==> res
                == (AuthorizationStep::CheckAncestry {
                pid: peer.pid,
                ancestor: self.spec_policy()->host_pid,
            }),
            !needs_ancestry(self.spec_policy(), self.spec_own_uid(), *peer) ==> res
                == AuthorizationStep::Decided(
                decision_for(self.spec_policy(), self.spec_own_uid(), *peer, false),
            ),
    {
        match self.policy {
            AuthPolicy::OsEnforced => AuthorizationStep::Decided(Decision::Allow),
            AuthPolicy::OwnUid => AuthorizationStep::Decided(self.decide_by_uid(peer)),
            AuthPolicy::HostDescendants { host_pid } => {
                if peer.uid == self.own_uid || peer.uid == ROOT_UID {
                    AuthorizationStep::Decided(Decision::Allow)
                } else if self.own_uid == ROOT_UID {
                    AuthorizationStep::CheckAncestry { pid: peer.pid, ancestor: host_pid }
                } else {
                    AuthorizationStep::Decided(Decision::Deny)
                }
            },
        }
    }

    /// The decision for `peer`, given whether it descends from the host.
    pub fn decide(&self, peer: &PeerCredentials, descends_from_host: bool) -> (res: Decision)
        ensures
            res == decision_for(self.spec_policy(), self.spec_own_uid(), *peer, descends_from_host),
    {
        match self.policy {
            AuthPolicy::OsEnforced => Decision::Allow,
            AuthPolicy::OwnUid => self.decide_by_uid(peer),
            AuthPolicy::HostDescendants { host_pid: _ } => {
                if peer.uid == self.own_uid || peer.uid == ROOT_UID {
                    Decision::Allow
                } else if self.own_uid == ROOT_UID && descends_from_host {
                    Decision::Allow
                } else {
                    Decision::Deny
                }
            },
        }
    }

    /// Judges a peer against the only uid this sidecar serves: its own, plus root.
    fn decide_by_uid(&self, peer: &PeerCredentials) -> (res: Decision)
        ensures
            res == (if peer.uid == self.own_uid || peer.uid == ROOT_UID {
                Decision::Allow
            } else {
                Decision::Deny
            }),
    {
        if peer.uid == self.own_uid || peer.uid == ROOT_UID {
            Decision::Allow
        } else {
            Decision::Deny
        }
    }
}

/// Peers holding the listener's own uid, or root, are always served; under
/// the own-uid policy every other uid is refused; ancestry can only widen
/// access for a root in-process listener.
pub proof fn lemma_authorization_rules(policy: AuthPolicy, own_uid: u32, peer: PeerCredentials, descends: bool)
    ensures
        (peer.uid == own_uid || peer.uid == ROOT_UID) ==> decision_for(policy, own_uid, peer, descends)
            == Decision::Allow,
        policy == AuthPolicy::OwnUid && peer.uid != own_uid && peer.uid != ROOT_UID ==> decision_for(
            policy,
            own_uid,
            peer,
            descends,
        ) == Decision::Deny,
        !needs_ancestry(policy, own_uid, peer) ==> decision_for(policy, own_uid, peer, descends)
            == decision_for(policy, own_uid, peer, false),
        policy == AuthPolicy::OsEnforced ==> decision_for(policy, own_uid, peer, descends)
            == Decision::Allow,
{
}

} // verus!
