//! Single-instance server lifecycle.
//!
//! At most one serving instance exists per process.  The manager holds the
//! abstract state — stopped, or running on a port — and the configured PIN
//! gate; the caller owns the actual socket and serving task.  A restart
//! always tears the old instance down first: the state after `start` never
//! depends on the state before it.
//!
//! Protocol for the caller: to start (or restart), first call [`ServerManager::stop`]
//! and abort the old serving task, then attempt the bind, then report the
//! outcome through [`ServerManager::start`]; when the serving task ends on
//! its own, report that through [`ServerManager::task_ended`].  Stopping
//! aborts the task abruptly: in-flight requests are not drained.

use crate::auth::AuthGate;
use vstd::prelude::*;

verus! {

/// The abstract lifecycle state.
#[derive(Clone, Copy, Debug, PartialEq, Eq, Structural)]
pub enum ServerState {
    Stopped,
    Running { port: u16 },
}

/// State after a start attempt on `port`: the previous instance is gone
/// whatever happens, and the new one runs iff the bind succeeded.
pub open spec fn start_transition(prev: ServerState, port: u16, bind_ok: bool) -> ServerState {
    if bind_ok {
        ServerState::Running { port }
    } else {
        ServerState::Stopped
    }
}

/// State after a stop, or after the serving task ended on its own.
pub open spec fn stop_transition(prev: ServerState) -> ServerState {
    ServerState::Stopped
}

/// Whether a state counts as running.
pub open spec fn is_running_state(s: ServerState) -> bool {
    s is Running
}

/// The port could not be bound; the caller's description of the failure is
/// kept verbatim.
#[derive(Debug)]
pub struct BindError {
    pub port: u16,
    pub reason: String,
}

/// Enforces the single-instance lifecycle and holds the PIN gate.
pub struct ServerManager {
    pub state: ServerState,
    pub auth: AuthGate,
}

impl ServerManager {
    /// A manager with no instance running and no PIN configured.
    pub fn new() -> (res: ServerManager)
        ensures
            res.state is Stopped,
            res.auth@ is None,
    {
        ServerManager { state: ServerState::Stopped, auth: AuthGate::new() }
    }

    /// Records a start attempt: the PIN replaces the previous one even if
    /// the bind failed, the state follows [`start_transition`], and a bind
    /// failure is surfaced as a descriptive error rather than a crash.
    pub fn start(
        &mut self,
        port: u16,
        pin: Option<String>,
        bind_outcome: Result<(), String>,
    ) -> (res: Result<(), BindError>)
        ensures
            final(self).auth@ == pin.deep_view(),
            final(self).state == start_transition(
                old(self).state,
                port,
                bind_outcome is Ok,
            ),
            match res {
                Ok(()) => bind_outcome is Ok,
                Err(e) => bind_outcome matches Err(m) && e.port == port && e.reason@ == m@,
            },
    {
        self.auth.configure(pin);
        match bind_outcome {
            Ok(()) => {
                self.state = ServerState::Running { port };
                Ok(())
            },
            Err(reason) => {
                self.state = ServerState::Stopped;
                Err(BindError { port, reason })
            },
        }
    }

    /// Stops the instance if one is running; a no-op otherwise.  The PIN is
    /// kept — only a new start replaces it.
    pub fn stop(&mut self)
        ensures
            final(self).state == stop_transition(old(self).state),
            final(self).auth == old(self).auth,
    {
        self.state = ServerState::Stopped;
    }

    /// Records that the serving task ended on its own (failed or
    /// completed), so that [`ServerManager::is_running`] turns false.
    pub fn task_ended(&mut self)
        ensures
            final(self).state == stop_transition(old(self).state),
            final(self).auth == old(self).auth,
    {
        self.state = ServerState::Stopped;
    }

    /// True iff an instance is running.
    pub fn is_running(&self) -> (res: bool)
        ensures
            res == is_running_state(self.state),
    {
        match self.state {
            ServerState::Running { .. } => true,
            ServerState::Stopped => false,
        }
    }
}

} // verus!
