//! The process supervisor's state machine: both adapters and the shutdown
//! listener race, and the first of them to finish moves the process from
//! running to draining; the supervisor then exits at once — fail-fast, with
//! no attempt to drain the other transport.

use vstd::prelude::*;

verus! {

/// The lifecycle phase of the process.
#[derive(Debug, Clone, Copy, PartialEq, Eq, Structural)]
pub enum SupervisorPhase {
    Starting,
    Running,
    Draining,
    Stopped,
}

/// What ends the running phase: the first of the HTTP adapter terminating,
/// the tool adapter terminating, or the shutdown signal arriving.
#[derive(Debug, Clone, Copy, PartialEq, Eq, Structural)]
pub enum SupervisorEvent {
    HttpTerminated,
    ToolTerminated,
    ShutdownSignal,
}

/// The supervisor: tracks the phase and which trigger ended the run.
#[derive(Debug)]
pub struct Supervisor {
    pub phase: SupervisorPhase,
    pub trigger: Option<SupervisorEvent>,
}

impl Supervisor {
    /// A supervisor before anything is constructed.
    pub fn new() -> (s: Self)
        ensures
            s.phase == SupervisorPhase::Starting,
            s.trigger is None,
    {
        Supervisor { phase: SupervisorPhase::Starting, trigger: None }
    }

    /// Both adapters are serving and the shutdown listener is armed; only a
    /// fully constructed supervisor may start them.
    pub fn adapters_started(&mut self)
        requires
            old(self).phase == SupervisorPhase::Starting,
        ensures
            final(self).phase == SupervisorPhase::Running,
            final(self).trigger is None,
    {
        self.phase = SupervisorPhase::Running;
        self.trigger = None;
    }

    /// The first terminating task or signal moves the system to draining and
    /// is recorded as the trigger; later events find the phase already past
    /// running and cannot overwrite it.
    pub fn observe(&mut self, event: SupervisorEvent)
        requires
            old(self).phase == SupervisorPhase::Running,
        ensures
            final(self).phase == SupervisorPhase::Draining,
            final(self).trigger == Some(event),
    {
        self.phase = SupervisorPhase::Draining;
        self.trigger = Some(event);
    }

    /// The draining process exits at once, keeping the recorded trigger; it
    /// does not wait for the other tasks to finish gracefully.
    pub fn exit(&mut self)
        requires
            old(self).phase == SupervisorPhase::Draining,
        ensures
            final(self).phase == SupervisorPhase::Stopped,
            final(self).trigger == old(self).trigger,
    {
        self.phase = SupervisorPhase::Stopped;
    }
}

} // verus!
