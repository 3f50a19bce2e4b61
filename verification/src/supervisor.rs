//! The supervisor's lifecycle slot and its transitions.
//!
//! A `Supervisor` is the state that the host keeps behind one mutual-exclusion
//! lock: a slot holding at most one process handle, and a flag that marks a
//! launch in flight.  `Start` is split around the spawn syscall, which the
//! host performs: `begin_start` claims the slot, then either `launched` stores
//! the new handle or `launch_failed` releases the claim.  `stop` atomically
//! takes the handle out; the host kills whatever was taken, after releasing
//! the lock, and the kill's outcome is never reported back.

use vstd::prelude::*;

verus! {

/// An error surfaced by `Start` to the application's bootstrap code.
#[derive(Debug, PartialEq, Eq)]
pub enum StartError {
    /// A handle is already stored, or a launch is already in flight: starting
    /// again would orphan a process with no remaining reference.
    AlreadyRunning,
    /// The spawn syscall failed (executable missing, permission denied);
    /// carries the operating-system error text for the operator.
    Spawn(String),
}

/// The lifecycle slot: at most one live process handle, identified by the
/// process id the host obtained when it spawned the child.
pub struct Supervisor {
    /// The stored handle, if a child is running.
    pub slot: Option<u64>,
    /// A `begin_start` has claimed the slot and its spawn has not resolved yet.
    pub starting: bool,
}

impl Supervisor {
    /// A handle is stored: the child is considered running.
    pub open spec fn running(self) -> bool {
        self.slot is Some
    }

    /// A launch is in flight: the slot is claimed but not yet filled.
    pub open spec fn mid_launch(self) -> bool {
        self.starting
    }

    /// The slot is empty and no launch is in flight.
    pub open spec fn idle(self) -> bool {
        self.slot is None && !self.starting
    }

    /// The handle stored in the slot.
    pub open spec fn handle(self) -> u64
        recommends
            self.running(),
    {
        self.slot->0
    }

    /// What `begin_start` decides: refuse if the slot is taken or claimed,
    /// otherwise claim it for the spawn that the host performs next.
    pub open spec fn spec_begin_start(self) -> (Supervisor, Result<(), StartError>) {
        if self.running() || self.mid_launch() {
            (self, Err(StartError::AlreadyRunning))
        } else {
            (Supervisor { slot: self.slot, starting: true }, Ok(()))
        }
    }

    /// What a successful spawn does: the new handle fills the slot.
    pub open spec fn spec_launched(self, handle: u64) -> Supervisor {
        Supervisor { slot: Some(handle), starting: false }
    }

    /// What a failed spawn does: the claim is released, the slot stays as it was.
    pub open spec fn spec_launch_failed(self) -> Supervisor {
        Supervisor { slot: self.slot, starting: false }
    }

    /// What `stop` does: the slot is emptied and whatever it held comes out.
    pub open spec fn spec_stop(self) -> (Supervisor, Option<u64>) {
        (Supervisor { slot: None, starting: self.starting }, self.slot)
    }

    /// A fresh supervisor: empty slot, nothing in flight.
    pub fn new() -> (s: Supervisor)
        ensures
            s == (Supervisor { slot: None, starting: false }),
    {
        Supervisor { slot: None, starting: false }
    }

    /// `Start`, first step, under the state lock: refuse with
    /// `AlreadyRunning` if a handle is stored or a launch is in flight
    /// (leaving everything untouched), otherwise claim the slot so that the
    /// caller may perform the spawn.
    pub fn begin_start(&mut self) -> (r: Result<(), StartError>)
        ensures
            (*final(self), r) == old(self).spec_begin_start(),
    {
        if self.slot.is_some() || self.starting {
            Err(StartError::AlreadyRunning)
        } else {
            self.starting = true;
            Ok(())
        }
    }

    /// `Start`, second step, when the spawn succeeded: store the new handle.
    /// The caller then starts the two stream-forwarding tasks and returns,
    /// without waiting on either stream.
    pub fn launched(&mut self, handle: u64)
        requires
            old(self).mid_launch(),
        ensures
            *final(self) == old(self).spec_launched(handle),
    {
        self.slot = Some(handle);
        self.starting = false;
    }

    /// `Start`, second step, when the spawn failed: release the claim and
    /// hand back the `SpawnError` to propagate.  No partial state remains.
    pub fn launch_failed(&mut self, os_error: String) -> (e: StartError)
        requires
            old(self).mid_launch(),
        ensures
            *final(self) == old(self).spec_launch_failed(),
            e == StartError::Spawn(os_error),
    {
        self.starting = false;
        StartError::Spawn(os_error)
    }

    /// `Stop`, under the state lock: atomically take the handle out of the
    /// slot.  The caller releases the lock and then kills the returned
    /// handle, if any; a kill that loses the race against the child's own
    /// exit is expected and is never reported back, so `stop` has no error
    /// path at all.
    pub fn stop(&mut self) -> (taken: Option<u64>)
        ensures
            (*final(self), taken) == old(self).spec_stop(),
    {
        self.slot.take()
    }

    /// Whether a handle is currently stored.
    pub fn is_running(&self) -> (r: bool)
        ensures
            r == self.running(),
    {
        self.slot.is_some()
    }

    /// Whether a launch is in flight.
    pub fn is_mid_launch(&self) -> (r: bool)
        ensures
            r == self.mid_launch(),
    {
        self.starting
    }
}

/// A `Start` that begins while a handle is stored is refused with
/// `AlreadyRunning` and changes nothing: after a completed `Start`, a second
/// `Start` leaves the first handle exactly where it was.
pub proof fn lemma_second_start_rejected(s: Supervisor, handle: u64)
    requires
        s.idle(),
    ensures
        ({
            let after_first = s.spec_begin_start().0.spec_launched(handle);
            &&& s.spec_begin_start().1 is Ok
            &&& after_first.running()
            &&& after_first.handle() == handle
            &&& after_first.spec_begin_start() == (
                after_first,
                Err::<(), StartError>(StartError::AlreadyRunning),
            )
        }),
{
}

/// Only the first effective `Stop` yields a handle to kill: a second `Stop`
/// takes nothing and leaves the already-empty slot unchanged, whatever state
/// the supervisor was in before.
pub proof fn lemma_stop_idempotent(s: Supervisor)
    ensures
        s.spec_stop().0.spec_stop().1 is None,
        s.spec_stop().0.spec_stop().0 == s.spec_stop().0,
{
}

/// After `Stop` the slot is observably empty: a new `Start` is accepted, and
/// once its spawn returns a handle the supervisor runs that new handle.
pub proof fn lemma_restart_after_stop(s: Supervisor, handle: u64)
    requires
        !s.mid_launch(),
    ensures
        ({
            let stopped = s.spec_stop().0;
            &&& stopped.spec_begin_start().1 is Ok
            &&& stopped.spec_begin_start().0.spec_launched(handle).running()
            &&& stopped.spec_begin_start().0.spec_launched(handle).handle() == handle
        }),
{
}

/// A spawn failure leaves the supervisor exactly as it was before the
/// attempt: the slot is still empty, and nothing of the failed `Start`
/// remains.
pub proof fn lemma_spawn_failure_leaves_idle(s: Supervisor)
    requires
        s.idle(),
    ensures
        s.spec_begin_start().1 is Ok,
        s.spec_begin_start().0.spec_launch_failed() == s,
{
}

} // verus!
