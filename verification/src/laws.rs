//! What holds of the manager over whole operations and sequences of them.
//!
//! An operation here is a call of the manager followed by the caller carrying
//! out the action it was handed; `launch` stands for whatever a launch of the
//! helper answers.

use crate::uxplay::{Action, State};
use vstd::prelude::*;

verus! {

/// The manager starts well formed and every step keeps it so: a handle is
/// never held while the toggle is off.
pub proof fn lemma_wf_preserved<H, E>(s: State<H>, enabled: bool, launch: Result<H, E>)
    requires
        s.wf(),
    ensures
        State::<H>::initial().wf(),
        s.reconcile().0.wf(),
        s.set_enabled(enabled).0.wf(),
        s.awaits_spawn() ==> s.spawn_finished(launch).0.wf(),
{
}

/// A launch is asked for only in a state that can take in its outcome, and
/// asking changes nothing yet.
pub proof fn lemma_spawn_is_awaited<H>(s: State<H>, enabled: bool)
    requires
        s.wf(),
    ensures
        s.reconcile().1 is Spawn ==> s.reconcile().0 == s && s.awaits_spawn(),
        s.set_enabled(enabled).1 is Spawn ==> s.set_enabled(enabled).0.awaits_spawn(),
{
}

/// Enabling twice in a row, starting with the toggle off, asks for exactly
/// one launch: the first call asks, the second does nothing, whether the
/// launch succeeded, failed, or has not been reported yet.
pub proof fn lemma_enable_twice_spawns_once<H, E>(s: State<H>, launch: Result<H, E>)
    requires
        s.wf(),
        !s.airplay,
    ensures
        ({
            let (s1, first) = s.set_enabled(true);
            let (s2, _result) = s1.settle(first, launch);
            let (s3, second) = s2.set_enabled(true);
            &&& first.spawn_attempts() + second.spawn_attempts() == 1
            &&& first == Action::<H>::Spawn
            &&& second == Action::<H>::Idle
            &&& s3 == s2
            &&& s1.set_enabled(true) == (s1, Action::<H>::Idle)
        }),
{
}

/// Disabling while no helper is held asks for no termination, and for
/// nothing else either.
pub proof fn lemma_disable_when_stopped_kills_nothing<H>(s: State<H>)
    requires
        !s.running(),
    ensures
        s.set_enabled(false).1.kill_attempts() == 0,
        s.set_enabled(false).1 == Action::<H>::Idle,
        s.set_enabled(false).0 == State::<H>::initial(),
{
}

/// After an enabling operation that succeeded, a helper is held. The one
/// state left out is the toggle already on with no helper, where enabling
/// again is a no-op that succeeds with nothing running.
pub proof fn lemma_enabled_means_running<H, E>(s: State<H>, launch: Result<H, E>)
    requires
        s.wf(),
        !s.awaits_spawn(),
    ensures
        ({
            let (s1, action) = s.set_enabled(true);
            let (s2, result) = s1.settle(action, launch);
            &&& result is Ok ==> s2.running()
            &&& !s.airplay ==> (launch matches Ok(child) ==> s2.process == Some(child))
            &&& s2.airplay
        }),
{
}

/// After a disabling operation no helper is held and the operation has
/// succeeded. The handle is given up with the decision itself, before any
/// termination step runs, so the outcome of those steps cannot change this.
pub proof fn lemma_disabled_means_stopped<H, E>(s: State<H>, launch: Result<H, E>)
    requires
        s.wf(),
    ensures
        ({
            let (s1, action) = s.set_enabled(false);
            &&& s1 == State::<H>::initial()
            &&& !s1.running()
            &&& s1.settle(action, launch) == (s1, Ok::<(), E>(()))
            &&& action.kill_attempts() == (if s.running() { 1nat } else { 0nat })
            &&& s.process matches Some(child) ==> action == Action::Kill(child)
        }),
{
}

/// A launch that fails is returned as the error of the enabling operation,
/// and the manager holds no helper afterwards. The toggle stays on.
pub proof fn lemma_spawn_failure_is_returned<H, E>(s: State<H>, e: E)
    requires
        s.wf(),
        !s.airplay,
    ensures
        ({
            let (s1, action) = s.set_enabled(true);
            let (s2, result) = s1.settle(action, Err::<H, E>(e));
            &&& action == Action::<H>::Spawn
            &&& result == Err::<(), E>(e)
            &&& !s2.running()
            &&& s2.airplay
        }),
{
}

/// Setting the toggle to the value it has performs no process operation,
/// changes nothing and succeeds.
pub proof fn lemma_same_value_is_noop<H, E>(s: State<H>, launch: Result<H, E>)
    ensures
        s.set_enabled(s.airplay) == (s, Action::<H>::Idle),
        s.settle(Action::<H>::Idle, launch) == (s, Ok::<(), E>(())),
        Action::<H>::Idle.spawn_attempts() == 0,
        Action::<H>::Idle.kill_attempts() == 0,
{
}

} // verus!
