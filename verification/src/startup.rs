//! Startup, and the decision each worker takes after an accept attempt.
//!
//! Startup binds the listening socket, then spawns the workers one by one,
//! each with its own handle to the same socket. Either step can fail, and
//! only these startup-phase failures are fatal: a failed bind aborts before
//! any worker is spawned, and a failed listener clone aborts the process.
//! Once the pool is running, a failed accept attempt is logged and the
//! worker carries on; its loop ends only when the listening socket itself
//! is closed or invalidated.

use vstd::prelude::*;

use crate::error::ServerError;

verus! {

/// How many workers the service starts. The functional minimum is five
/// concurrently serviced clients; this count stays above it.
pub const WORKER_COUNT: u8 = 8;

/// Where startup is.
#[derive(Clone, Copy, Debug, PartialEq, Eq, Structural)]
pub enum StartupPhase {
    /// The listening socket is being bound.
    Binding,
    /// The socket is bound; workers are being spawned.
    Spawning,
    /// Every worker is spawned and accepting.
    Running,
    /// Startup aborted with this fatal error.
    Failed(ServerError),
}

/// The startup sequence: bind once, then spawn each worker in turn.
pub struct Startup {
    /// How many workers to spawn.
    pub target: u8,
    /// How many workers are spawned so far.
    pub spawned: u8,
    /// Where startup is.
    pub phase: StartupPhase,
}

impl Startup {
    /// Startup's invariant: the worker count stays within its target, a
    /// failure is always a fatal error, nothing is spawned before the bind
    /// succeeds, and a failed bind spawned nothing.
    pub open spec fn wf(self) -> bool {
        &&& self.target >= 1
        &&& self.spawned <= self.target
        &&& self.phase is Binding ==> self.spawned == 0
        &&& self.phase is Spawning ==> self.spawned < self.target
        &&& self.phase is Running ==> self.spawned == self.target
        &&& (self.phase matches StartupPhase::Failed(e) ==> e.is_fatal_spec())
        &&& self.phase == StartupPhase::Failed(ServerError::Bind) ==> self.spawned == 0
    }

    /// Begin startup, aiming for this many workers.
    pub fn new(worker_count: u8) -> (s: Startup)
        requires
            worker_count >= 1,
        ensures
            s.wf(),
            s.phase is Binding,
            s.spawned == 0,
            s.target == worker_count,
    {
        Startup { target: worker_count, spawned: 0, phase: StartupPhase::Binding }
    }

    /// Record the outcome of binding the listening socket. A failed bind is
    /// immediately fatal, with no worker spawned; a successful bind moves
    /// on to spawning.
    pub fn on_bind(&mut self, ok: bool) -> (r: Result<(), ServerError>)
        requires
            old(self).wf(),
            old(self).phase is Binding,
        ensures
            final(self).wf(),
            final(self).target == old(self).target,
            final(self).spawned == 0,
            ok ==> r == Ok::<(), ServerError>(()) && final(self).phase is Spawning,
            !ok ==> r == Err::<(), ServerError>(ServerError::Bind)
                && final(self).phase == StartupPhase::Failed(ServerError::Bind),
    {
        if ok {
            self.phase = StartupPhase::Spawning;
            Ok(())
        } else {
            self.phase = StartupPhase::Failed(ServerError::Bind);
            Err(ServerError::Bind)
        }
    }

    /// Record the outcome of duplicating the listening socket handle for
    /// the next worker. On success that worker (returned by its index) is
    /// spawned, and startup is running once the last one is; a failure is
    /// fatal and stops spawning where it stood.
    pub fn on_worker_clone(&mut self, ok: bool) -> (r: Result<u8, ServerError>)
        requires
            old(self).wf(),
            old(self).phase is Spawning,
        ensures
            final(self).wf(),
            final(self).target == old(self).target,
            ok ==> {
                &&& r == Ok::<u8, ServerError>(old(self).spawned)
                &&& final(self).spawned == old(self).spawned + 1
                &&& old(self).spawned + 1 == old(self).target
                    ==> final(self).phase is Running
                &&& old(self).spawned + 1 < old(self).target
                    ==> final(self).phase is Spawning
            },
            !ok ==> {
                &&& r == Err::<u8, ServerError>(ServerError::ListenerClone)
                &&& final(self).phase == StartupPhase::Failed(ServerError::ListenerClone)
                &&& final(self).spawned == old(self).spawned
            },
    {
        if ok {
            let index = self.spawned;
            self.spawned = self.spawned + 1;
            if self.spawned == self.target {
                self.phase = StartupPhase::Running;
            }
            Ok(index)
        } else {
            self.phase = StartupPhase::Failed(ServerError::ListenerClone);
            Err(ServerError::ListenerClone)
        }
    }

    /// Whenever startup has failed, it failed with a fatal error: the two
    /// recovered kinds never abort the process.
    pub proof fn lemma_failure_is_fatal(self, e: ServerError)
        requires
            self.wf(),
            self.phase == StartupPhase::Failed(e),
        ensures
            e.is_fatal_spec(),
    {
    }

    /// Binding to an already-occupied port is an immediate, fatal startup
    /// failure with no workers spawned.
    pub proof fn lemma_bind_failure_spawns_no_worker(self)
        requires
            self.wf(),
            self.phase == StartupPhase::Failed(ServerError::Bind),
        ensures
            self.spawned == 0,
    {
    }
}

/// The outcome of one accept attempt, reported by the worker's loop.
#[derive(Clone, Copy, Debug, PartialEq, Eq, Structural)]
pub enum AcceptEvent {
    /// A connection was accepted.
    Accepted,
    /// This accept attempt failed transiently.
    TransientError,
    /// The listening socket is closed or invalidated; accept can never
    /// succeed again.
    ListenerClosed,
}

/// What a worker does after one accept attempt.
#[derive(Clone, Copy, Debug, PartialEq, Eq, Structural)]
pub enum WorkerStep {
    /// Service the accepted connection fully, then accept again.
    Handle,
    /// Log this error and keep the loop going.
    LogAndContinue(ServerError),
    /// Leave the loop: the listening socket is gone.
    Exit,
}

/// Decide a worker's next step from the outcome of one accept attempt.
///
/// A per-accept failure never ends the loop — it is logged and the worker
/// continues — and only the listening socket's own failure ends it.
pub fn on_accept_event(event: AcceptEvent) -> (step: WorkerStep)
    ensures
        event is Accepted ==> step == WorkerStep::Handle,
        event is TransientError ==> step == WorkerStep::LogAndContinue(ServerError::Accept),
        event is ListenerClosed ==> step == WorkerStep::Exit,
        step is Exit <==> event is ListenerClosed,
{
    match event {
        AcceptEvent::Accepted => WorkerStep::Handle,
        AcceptEvent::TransientError => WorkerStep::LogAndContinue(ServerError::Accept),
        AcceptEvent::ListenerClosed => WorkerStep::Exit,
    }
}

} // verus!
