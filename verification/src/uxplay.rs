//! The process manager: one optional handle kept in step with a toggle.
//!
//! The manager never touches the operating system. It decides what has to
//! happen and hands that out as an [`Action`]; the caller carries the action
//! out and reports what came of it. `H` is whatever the caller uses as a
//! handle of a live process, `E` whatever its process operations fail with.

use vstd::prelude::*;

verus! {

/// Name of the helper executable. It is launched without arguments, with its
/// standard output piped to the parent and its standard error inherited.
pub const HELPER: &'static str = "uxplay";

/// What the caller has to do for the manager.
#[derive(Debug, PartialEq, Eq)]
pub enum Action<H> {
    /// Nothing: handle and toggle already agree.
    Idle,
    /// Launch [`HELPER`] and report with [`Uxplay::spawn_finished`].
    Spawn,
    /// Ask the process to end and report with [`kill_finished`].
    Kill(H),
    /// Wait for the process to exit and report with [`wait_finished`].
    Wait(H),
}

/// A step of stopping the helper that failed. Such a failure is for the log
/// only: it is never returned as an error and never keeps the handle alive.
#[derive(Debug, PartialEq, Eq)]
pub enum TerminationFailure<E> {
    /// The request to end the process failed.
    Kill(E),
    /// Waiting for the process to exit failed.
    Wait(E),
}

/// What the manager holds, as plain data: the stored toggle and the handle
/// of the helper it believes to be running.
pub struct State<H> {
    pub airplay: bool,
    pub process: Option<H>,
}

impl<H> Action<H> {
    /// Number of launches this action asks for.
    pub open spec fn spawn_attempts(self) -> nat {
        if self is Spawn { 1 } else { 0 }
    }

    /// Number of termination requests this action asks for.
    pub open spec fn kill_attempts(self) -> nat {
        if self is Kill { 1 } else { 0 }
    }
}

impl<H> State<H> {
    /// Toggle off, no process.
    pub open spec fn initial() -> Self {
        State { airplay: false, process: None }
    }

    /// A handle is held only while the toggle is on.
    pub open spec fn wf(self) -> bool {
        self.process is Some ==> self.airplay
    }

    /// The manager believes a helper is running.
    pub open spec fn running(self) -> bool {
        self.process is Some
    }

    /// The toggle is on and no handle is held: the state in which a launch
    /// is asked for and its outcome can be taken in.
    pub open spec fn awaits_spawn(self) -> bool {
        self.airplay && self.process is None
    }

    /// Bringing the handle in line with the toggle: the state right after the
    /// decision, and what the caller is asked to do.
    pub open spec fn reconcile(self) -> (Self, Action<H>) {
        if self.airplay {
            (self, if self.process is None { Action::Spawn } else { Action::Idle })
        } else {
            match self.process {
                Some(child) => (State { airplay: false, process: None }, Action::Kill(child)),
                None => (self, Action::Idle),
            }
        }
    }

    /// Storing a new toggle value: nothing if it is the stored one, else the
    /// reconciliation of the updated state.
    pub open spec fn set_enabled(self, enabled: bool) -> (Self, Action<H>) {
        if self.airplay == enabled {
            (self, Action::Idle)
        } else {
            (State { airplay: enabled, process: self.process }).reconcile()
        }
    }

    /// Taking in the outcome of a launch: the handle is stored on success,
    /// the error goes to the caller and the state stays as it is on failure.
    pub open spec fn spawn_finished<E>(self, outcome: Result<H, E>) -> (Self, Result<(), E>) {
        match outcome {
            Ok(child) => (State { airplay: self.airplay, process: Some(child) }, Ok(())),
            Err(e) => (self, Err(e)),
        }
    }

    /// State and result of a whole operation once `action` has been carried
    /// out, where `launch` is what a launch of the helper answers. Only a
    /// launch reaches the state or the result: stopping the helper does not.
    pub open spec fn settle<E>(self, action: Action<H>, launch: Result<H, E>) -> (
        Self,
        Result<(), E>,
    ) {
        if action is Spawn {
            self.spawn_finished(launch)
        } else {
            (self, Ok(()))
        }
    }
}

/// What goes to the log after a termination request answered `outcome`.
pub open spec fn kill_notice<E>(outcome: Result<(), E>) -> Option<TerminationFailure<E>> {
    match outcome {
        Ok(_) => None,
        Err(e) => Some(TerminationFailure::Kill(e)),
    }
}

/// What goes to the log after waiting for the exit answered `outcome`.
pub open spec fn wait_notice<E>(outcome: Result<(), E>) -> Option<TerminationFailure<E>> {
    match outcome {
        Ok(_) => None,
        Err(e) => Some(TerminationFailure::Wait(e)),
    }
}

/// Owns at most one handle of the helper process.
pub struct Uxplay<H> {
    airplay: bool,
    process: Option<H>,
}

impl<H> View for Uxplay<H> {
    type V = State<H>;

    closed spec fn view(&self) -> State<H> {
        State { airplay: self.airplay, process: self.process }
    }
}

impl<H> Uxplay<H> {
    #[verifier::type_invariant]
    spec fn inv(self) -> bool {
        self.process is Some ==> self.airplay
    }

    /// A manager with the toggle off and no process.
    pub fn new() -> (manager: Self)
        ensures
            manager@ == State::<H>::initial(),
    {
        Uxplay { airplay: false, process: None }
    }

    /// The stored toggle.
    pub fn airplay(&self) -> (on: bool)
        ensures
            on == self@.airplay,
            self@.wf(),
    {
        proof {
            use_type_invariant(self);
        }
        self.airplay
    }

    /// Whether the manager believes a helper is running.
    pub fn is_running(&self) -> (running: bool)
        ensures
            running == self@.running(),
            self@.wf(),
    {
        proof {
            use_type_invariant(self);
        }
        self.process.is_some()
    }

    /// The handle of the helper, if one is held.
    pub fn process(&self) -> (handle: Option<&H>)
        ensures
            handle is Some <==> self@.process is Some,
            handle matches Some(child) ==> self@.process == Some(*child),
            self@.wf(),
    {
        proof {
            use_type_invariant(self);
        }
        self.process.as_ref()
    }

    /// Whether the outcome of a launch can be taken in: the toggle is on and
    /// no handle is held.
    pub fn awaits_spawn(&self) -> (awaited: bool)
        ensures
            awaited == self@.awaits_spawn(),
            self@.wf(),
    {
        proof {
            use_type_invariant(self);
        }
        self.airplay && self.process.is_none()
    }

    /// Gives up the handle, if one is held.
    fn release(&mut self) -> (held: Option<H>)
        ensures
            held == old(self)@.process,
            final(self)@.process is None,
            final(self)@.airplay == old(self)@.airplay,
    {
        let mut held = None;
        std::mem::swap(&mut held, &mut self.process);
        held
    }

    /// Brings the handle in line with the stored toggle.
    ///
    /// With the toggle on and no handle, asks for a launch and leaves the
    /// state alone until the outcome arrives. With the toggle on and a handle
    /// held, does nothing. With the toggle off and a handle held, gives the
    /// handle up at once and asks for the process to be ended. With the
    /// toggle off and no handle, does nothing.
    pub fn manage_uxplay_process(&mut self) -> (action: Action<H>)
        ensures
            (*final(self))@ == old(self)@.reconcile().0,
            action == old(self)@.reconcile().1,
            old(self)@.wf(),
            final(self)@.wf(),
            !(action is Wait),
    {
        proof {
            use_type_invariant(&*self);
        }
        if self.airplay {
            if self.process.is_none() {
                Action::Spawn
            } else {
                Action::Idle
            }
        } else {
            match self.release() {
                Some(child) => Action::Kill(child),
                None => Action::Idle,
            }
        }
    }

    /// Stores a new toggle value and reconciles if it differs from the
    /// stored one; does nothing if it is the same.
    pub fn set_airplay(&mut self, enabled: bool) -> (action: Action<H>)
        ensures
            (*final(self))@ == old(self)@.set_enabled(enabled).0,
            action == old(self)@.set_enabled(enabled).1,
            old(self)@.wf(),
            final(self)@.wf(),
            final(self)@.airplay == enabled,
            final(self)@.process == (if enabled { old(self)@.process } else { None }),
            action == (if enabled == old(self)@.airplay {
                Action::Idle
            } else if enabled {
                Action::Spawn
            } else {
                match old(self)@.process {
                    Some(child) => Action::Kill(child),
                    None => Action::Idle,
                }
            }),
    {
        proof {
            use_type_invariant(&*self);
        }
        if self.airplay == enabled {
            Action::Idle
        } else if enabled {
            self.airplay = true;
            self.manage_uxplay_process()
        } else {
            let held = self.release();
            self.airplay = false;
            match held {
                Some(child) => Action::Kill(child),
                None => Action::Idle,
            }
        }
    }

    /// Takes in the outcome of the launch that [`Action::Spawn`] asked for.
    ///
    /// On success the handle is stored. On failure the error is returned, no
    /// handle is stored, and the toggle stays on: nothing is retried and
    /// nothing is reverted.
    pub fn spawn_finished<E>(&mut self, outcome: Result<H, E>) -> (result: Result<(), E>)
        requires
            old(self)@.awaits_spawn(),
        ensures
            (*final(self))@ == old(self)@.spawn_finished(outcome).0,
            result == old(self)@.spawn_finished(outcome).1,
            final(self)@.wf(),
            final(self)@.airplay,
            result is Ok <==> outcome is Ok,
            result is Ok <==> final(self)@.running(),
    {
        match outcome {
            Ok(child) => {
                self.process = Some(child);
                Ok(())
            },
            Err(e) => Err(e),
        }
    }
}

impl<H> Default for Uxplay<H> {
    /// The same as [`Uxplay::new`].
    fn default() -> (manager: Self)
        ensures
            manager@ == State::<H>::initial(),
    {
        Uxplay::new()
    }
}

/// Takes in the outcome of the termination request that [`Action::Kill`]
/// asked for. Whatever it was, the process is waited for next, so that it is
/// reaped; a failure goes to the log.
pub fn kill_finished<H, E>(child: H, outcome: Result<(), E>) -> (step: (
    Action<H>,
    Option<TerminationFailure<E>>,
))
    ensures
        step.0 == Action::Wait(child),
        step.1 == kill_notice(outcome),
{
    let notice = match outcome {
        Ok(_) => None,
        Err(e) => Some(TerminationFailure::Kill(e)),
    };
    (Action::Wait(child), notice)
}

/// Takes in the outcome of the wait that [`Action::Wait`] asked for. The
/// operation is over either way; a failure goes to the log.
pub fn wait_finished<E>(outcome: Result<(), E>) -> (notice: Option<TerminationFailure<E>>)
    ensures
        notice == wait_notice(outcome),
{
    match outcome {
        Ok(_) => None,
        Err(e) => Some(TerminationFailure::Wait(e)),
    }
}

} // verus!
