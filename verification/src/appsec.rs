//! The AppSec helper's one-way lifecycle: started at most once, serving
//! messages only while running, shut down at most once.
use vstd::prelude::*;

verus! {

/// The AppSec helper's answer to one message.
#[derive(Debug)]
pub struct AppSecMessageResponse {
    pub client_id: u64,
    pub data: Vec<u8>,
    pub disconnect: bool,
}

/// Where the helper stands.
#[derive(Debug, Clone, Copy, PartialEq, Eq, Structural)]
pub enum AppSecState {
    /// No start was attempted yet.
    NotStarted,
    /// Started; `shutdown_taken` once its shutdown has been handed out.
    Running { shutdown_taken: bool },
    /// The start failed (no backend registered, or the backend refused).
    Failed,
}

/// What a start attempt leads to: the first attempt decides, later ones see
/// its outcome.
pub open spec fn after_start(s: AppSecState, backend_registered: bool, backend_started: bool) -> AppSecState {
    match s {
        AppSecState::NotStarted => if backend_registered && backend_started {
            AppSecState::Running { shutdown_taken: false }
        } else {
            AppSecState::Failed
        },
        _ => s,
    }
}

/// The lifecycle of the AppSec helper of one sidecar.
pub struct AppSecLifecycle {
    state: AppSecState,
}

impl View for AppSecLifecycle {
    type V = AppSecState;

    closed spec fn view(&self) -> AppSecState {
        self.state
    }
}

impl AppSecLifecycle {
    /// Nothing started yet.
    pub fn new() -> (res: Self)
        ensures
            res@ == AppSecState::NotStarted,
    {
        AppSecLifecycle { state: AppSecState::NotStarted }
    }

    /// Whether a start must be attempted now (none was yet).
    pub fn needs_start(&self) -> (res: bool)
        ensures
            res == (self@ == AppSecState::NotStarted),
    {
        match self.state {
            AppSecState::NotStarted => true,
            _ => false,
        }
    }

    /// Records the outcome of a start attempt, if this is the first; returns
    /// whether the helper runs.
    pub fn record_start(&mut self, backend_registered: bool, backend_started: bool) -> (running: bool)
        ensures
            final(self)@ == after_start(old(self)@, backend_registered, backend_started),
            running == (final(self)@ is Running),
    {
        match self.state {
            AppSecState::NotStarted => {
                if backend_registered && backend_started {
                    self.state = AppSecState::Running { shutdown_taken: false };
                    true
                } else {
                    self.state = AppSecState::Failed;
                    false
                }
            },
            AppSecState::Running { .. } => true,
            AppSecState::Failed => false,
        }
    }

    /// Whether messages and disconnects reach the helper: only while it runs.
    pub fn serves_messages(&self) -> (res: bool)
        ensures
            res == (self@ is Running),
    {
        match self.state {
            AppSecState::Running { .. } => true,
            _ => false,
        }
    }

    /// Hands out the helper's shutdown: once, and only if it runs.
    pub fn take_shutdown(&mut self) -> (taken: bool)
        ensures
            taken == (old(self)@ == (AppSecState::Running { shutdown_taken: false })),
            old(self)@ is Running ==> (final(self)@ == (AppSecState::Running { shutdown_taken: true })),
            !(old(self)@ is Running) ==> final(self)@ == old(self)@,
    {
        match self.state {
            AppSecState::Running { shutdown_taken } => {
                self.state = AppSecState::Running { shutdown_taken: true };
                !shutdown_taken
            },
            _ => false,
        }
    }
}

/// The first start attempt decides for good: later attempts change nothing,
/// whatever their outcome.
pub proof fn lemma_start_decided_once(s: AppSecState, r1: bool, o1: bool, r2: bool, o2: bool)
    requires
        s == AppSecState::NotStarted,
    ensures
        after_start(after_start(s, r1, o1), r2, o2) == after_start(s, r1, o1),
{
}

} // verus!
