//! The sidecar supervisor: duplicate-spawn prevention, spawn-outcome
//! bookkeeping, and termination accounting for the single worker process.
//!
//! The supervisor owns the handle store and drives it through a small state
//! machine. The embedding shell performs the actual process operations
//! (resolving, spawning, killing) between the calls below and hands their
//! outcomes back in as plain values, so every decision the supervisor makes
//! is verified here while the operating-system work stays outside.
//!
//! A start request runs in two steps: `begin_start` is the check-then-act
//! guard (it reserves the right to spawn, or reports that a worker is
//! already present), and `finish_start` records the spawn outcome. A
//! shutdown runs as `take_for_shutdown` (removing the handle exactly once)
//! followed by `finish_shutdown` (classifying the kill outcome).

use vstd::prelude::*;

use crate::store::HandleStore;

verus! {

/// What a start request decided under the spawn guard.
#[derive(Clone, Copy, Debug, PartialEq, Eq, Structural)]
pub enum StartDecision {
    /// A worker is already running (or a spawn is already in flight):
    /// nothing to do, and the request counts as a success.
    AlreadyRunning,
    /// The slot was free and is now reserved: the caller must attempt the
    /// spawn and report its outcome through `finish_start`.
    SpawnNeeded,
}

/// Why a start request failed. `LaunchFailed` carries the operating-system
/// error code of the refused spawn.
#[derive(Clone, Copy, Debug, PartialEq, Eq, Structural)]
pub enum SpawnError {
    ResolutionFailed,
    LaunchFailed(i32),
}

/// Why a shutdown request failed. `KillFailed` carries the operating-system
/// error code of the refused termination request.
#[derive(Clone, Copy, Debug, PartialEq, Eq, Structural)]
pub enum ShutdownError {
    NotRunning,
    KillFailed(i32),
}

/// Supervisor for at most one live worker process with handle type `H`.
pub struct Supervisor<H> {
    store: HandleStore<H>,
    starting: bool,
}

impl<H> Supervisor<H> {
    /// The handle currently held for a running worker, if any.
    pub closed spec fn current_handle(self) -> Option<H> {
        self.store@
    }

    /// True while a spawn is in flight: `begin_start` has reserved the slot
    /// and `finish_start` has not yet reported the outcome.
    pub closed spec fn is_starting(self) -> bool {
        self.starting
    }

    /// True when a worker handle is installed.
    pub open spec fn is_running(self) -> bool {
        self.current_handle() is Some
    }

    /// True when no worker is running and no spawn is in flight: the only
    /// state from which a new spawn may be issued.
    pub open spec fn is_idle(self) -> bool {
        !self.is_running() && !self.is_starting()
    }

    /// While a spawn is in flight the slot is still empty; it is filled only
    /// when `finish_start` reports success.
    pub open spec fn wf(self) -> bool {
        self.is_starting() ==> !self.is_running()
    }

    /// The decision `begin_start` takes in state `self`.
    pub open spec fn spec_start_decision(self) -> StartDecision {
        if self.is_idle() {
            StartDecision::SpawnNeeded
        } else {
            StartDecision::AlreadyRunning
        }
    }

    /// The state `begin_start` leaves behind.
    pub closed spec fn spec_after_begin_start(self) -> Supervisor<H> {
        if self.is_idle() {
            (Supervisor { store: self.store, starting: true })
        } else {
            self
        }
    }

    /// The result `finish_start` returns for a given spawn outcome.
    pub open spec fn spec_finish_start_result(self, outcome: Result<H, SpawnError>) -> Result<
        (),
        SpawnError,
    > {
        match outcome {
            Ok(_) => Ok(()),
            Err(e) => Err(e),
        }
    }

    /// The state `finish_start` leaves behind for a given spawn outcome.
    pub closed spec fn spec_after_finish_start(self, outcome: Result<H, SpawnError>) -> Supervisor<
        H,
    > {
        match outcome {
            Ok(h) => (Supervisor { store: HandleStore::spec_holding(h), starting: false }),
            Err(_) => (Supervisor { store: self.store, starting: false }),
        }
    }

    /// The result `take_for_shutdown` returns in state `self`.
    pub open spec fn spec_shutdown_result(self) -> Result<H, ShutdownError> {
        match self.current_handle() {
            Some(h) => Ok(h),
            None => Err(ShutdownError::NotRunning),
        }
    }

    /// The state `take_for_shutdown` leaves behind.
    pub closed spec fn spec_after_shutdown(self) -> Supervisor<H> {
        Supervisor { store: HandleStore::spec_empty(), starting: self.starting }
    }

    /// A fresh supervisor: nothing running, nothing in flight.
    pub fn new() -> (s: Supervisor<H>)
        ensures
            s.wf(),
            s.is_idle(),
    {
        Supervisor { store: HandleStore::new(), starting: false }
    }

    /// The check-then-act spawn guard, run by the caller under its one lock.
    ///
    /// If a worker is already running, or a spawn is already in flight, the
    /// state is left untouched and no spawn is requested — a repeated start
    /// is a success that does nothing. Only from the idle state does it
    /// reserve the slot and request a spawn.
    pub fn begin_start(&mut self) -> (d: StartDecision)
        requires
            old(self).wf(),
        ensures
            final(self).wf(),
            d == old(self).spec_start_decision(),
            *final(self) == old(self).spec_after_begin_start(),
            (d is SpawnNeeded) == old(self).is_idle(),
            !old(self).is_idle() ==> *final(self) == *old(self),
            old(self).is_idle() ==> final(self).is_starting() && !final(self).is_running(),
            final(self).current_handle() == old(self).current_handle(),
    {
        if self.store.try_acquire_if_empty() && !self.starting {
            self.starting = true;
            StartDecision::SpawnNeeded
        } else {
            StartDecision::AlreadyRunning
        }
    }

    /// Records the outcome of the spawn that `begin_start` requested.
    ///
    /// On success the new handle is installed and the worker counts as
    /// running. On failure the supervisor returns to the idle state — the
    /// store is never left holding a partial handle, so the next start is
    /// free to try again — and the error is passed through to the caller.
    pub fn finish_start(&mut self, outcome: Result<H, SpawnError>) -> (r: Result<(), SpawnError>)
        requires
            old(self).wf(),
            old(self).is_starting(),
        ensures
            final(self).wf(),
            r == old(self).spec_finish_start_result(outcome),
            *final(self) == old(self).spec_after_finish_start(outcome),
            !final(self).is_starting(),
            match outcome {
                Ok(h) => final(self).is_running() && final(self).current_handle() == Some(h),
                Err(_) => final(self).is_idle(),
            },
    {
        self.starting = false;
        match outcome {
            Ok(h) => {
                self.store.install(h);
                Ok(())
            },
            Err(e) => Err(e),
        }
    }

    /// Removes the handle for termination, exactly once.
    ///
    /// If a worker is running, its handle is handed out and the supervisor
    /// is idle afterwards — the handle is gone from the store whatever the
    /// subsequent kill attempt does, so the state can never get stuck at
    /// "running" with a dead process. If nothing is running the state is
    /// untouched and the caller gets the explicit `NotRunning` error.
    pub fn take_for_shutdown(&mut self) -> (r: Result<H, ShutdownError>)
        requires
            old(self).wf(),
        ensures
            final(self).wf(),
            r == old(self).spec_shutdown_result(),
            *final(self) == old(self).spec_after_shutdown(),
            old(self).is_running() ==> final(self).is_idle(),
            !old(self).is_running() ==> *final(self) == *old(self),
    {
        match self.store.take() {
            Some(h) => Ok(h),
            None => Err(ShutdownError::NotRunning),
        }
    }
}

/// Singleton law: the supervisor never allows a second worker. In any
/// well-formed state that is not idle — a worker is running, or a spawn is
/// already in flight — a start request decides to spawn nothing, leaves the
/// state exactly as it was, and still counts as a success; a spawn is only
/// ever requested from the idle state.
pub proof fn lemma_start_is_singleton<H>(s: Supervisor<H>)
    requires
        s.wf(),
        !s.is_idle(),
    ensures
        s.spec_start_decision() == StartDecision::AlreadyRunning,
        s.spec_after_begin_start() == s,
{
}

/// Shutdown idempotence law: two shutdown requests in a row on a running
/// worker yield the worker's handle once, then the explicit `NotRunning`
/// error — never two successes — and the second request changes nothing.
pub proof fn lemma_shutdown_idempotence<H>(s: Supervisor<H>)
    requires
        s.wf(),
        s.is_running(),
    ensures
        s.spec_shutdown_result() == Ok::<H, ShutdownError>(s.current_handle()->Some_0),
        s.spec_after_shutdown().spec_shutdown_result() == Err::<H, ShutdownError>(
            ShutdownError::NotRunning,
        ),
        s.spec_after_shutdown().spec_after_shutdown() == s.spec_after_shutdown(),
        s.spec_after_shutdown().wf(),
{
    HandleStore::<H>::lemma_empty_view();
}

/// Spawn-failure law: a failed spawn surfaces its error and leaves the
/// supervisor exactly where a fresh one starts — idle, with an empty slot —
/// so the very next start request attempts a spawn again.
pub proof fn lemma_spawn_failure_leaves_clean_state<H>(s: Supervisor<H>, e: SpawnError)
    requires
        s.wf(),
        s.is_starting(),
    ensures
        s.spec_finish_start_result(Err(e)) == Err::<(), SpawnError>(e),
        s.spec_after_finish_start(Err(e)).wf(),
        s.spec_after_finish_start(Err(e)).is_idle(),
        s.spec_after_finish_start(Err(e)).spec_start_decision() == StartDecision::SpawnNeeded,
{
}

/// Classifies the outcome of the operating-system kill request issued for a
/// handle obtained from `take_for_shutdown`: success once the termination
/// request went through, `KillFailed` with the OS error code otherwise.
pub fn finish_shutdown(kill_outcome: Result<(), i32>) -> (r: Result<(), ShutdownError>)
    ensures
        match kill_outcome {
            Ok(_) => r == Ok::<(), ShutdownError>(()),
            Err(code) => r == Err::<(), ShutdownError>(ShutdownError::KillFailed(code)),
        },
{
    match kill_outcome {
        Ok(_) => Ok(()),
        Err(code) => Err(ShutdownError::KillFailed(code)),
    }
}

} // verus!
