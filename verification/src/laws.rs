//! The ordering and round-trip guarantees of the locker state machine,
//! stated over the spec-level transition steps that the `Locker` methods are
//! proved to implement.

use vstd::prelude::*;

use crate::locker::{
    lock_finish_step, lock_step, poll_step, resume_step, sleep_begin_step, sleep_finish_step,
    unlock_step, ChildObservation, LockerView, PendingSpawn,
};

verus! {

/// Law: locking is idempotent. A `lock()` that observes the tracked child
/// still running changes nothing at all — combined with `lock()`'s contract
/// (a spawn request is handed out only when no live child is tracked), any
/// sequence of `lock()` calls with no intervening `unlock()` spawns at most
/// one child process.
pub proof fn law_lock_idempotent(m: LockerView)
    ensures
        lock_step(m, ChildObservation::StillRunning) == m,
{
}

/// The iterated form of the idempotence law: any number of repeated
/// `lock()` steps over a still-running child is the identity.
pub open spec fn lock_steps_running(m: LockerView, n: nat) -> LockerView
    decreases n,
{
    if n == 0 {
        m
    } else {
        lock_step(lock_steps_running(m, (n - 1) as nat), ChildObservation::StillRunning)
    }
}

/// Law: a whole run of `lock()` calls over a still-running child leaves the
/// state exactly where it started; no call in the run spawns.
pub proof fn law_lock_run_unchanged(m: LockerView, n: nat)
    ensures
        lock_steps_running(m, n) == m,
    decreases n,
{
    if n > 0 {
        law_lock_run_unchanged(m, (n - 1) as nat);
    }
}

/// Law: `on_sleep()` runs the lock step strictly before the inhibitor
/// release, whatever the prior state. When a spawn is needed, the begin
/// phase leaves the inhibitor exactly as it was and marks the spawn
/// pending; only the finish phase — which records the spawn outcome —
/// releases it. The one case where the begin phase itself releases is the
/// case where a locker is already running, i.e. the lock step is already
/// satisfied. Either way the sleep transition ends with no inhibitor held.
pub proof fn law_sleep_lock_before_release(m: LockerView, obs: ChildObservation, pid: Option<int>)
    ensures
        obs != ChildObservation::StillRunning ==> sleep_begin_step(m, obs).inhibitor
            == m.inhibitor,
        obs != ChildObservation::StillRunning ==> sleep_begin_step(m, obs).pending == Some(
            PendingSpawn::ForSleep,
        ),
        sleep_begin_step(m, ChildObservation::StillRunning).inhibitor is None,
        sleep_finish_step(sleep_begin_step(m, obs), pid).inhibitor is None,
{
}

/// Law: after any `on_resume()` a fresh inhibitor is held — regardless of
/// what the state was, in particular regardless of whether the release
/// before the sleep succeeded — and the child process is untouched.
pub proof fn law_resume_rearms(m: LockerView, fd: int)
    ensures
        resume_step(m, fd).inhibitor == Some(fd),
        resume_step(m, fd).child == m.child,
        resume_step(m, fd).pending == m.pending,
{
}

/// Law: a poll that observes the child's exit always clears the child
/// handle, whatever the reason for the exit was; a poll that does not
/// changes nothing. (That the accompanying command also clears the idle
/// hint, when managed, is part of `poll_locker()`'s own contract.)
pub proof fn law_poll_clears_child(m: LockerView, exited: bool)
    ensures
        poll_step(m, true).child is None,
        poll_step(m, false) == m,
        poll_step(m, exited).inhibitor == m.inhibitor,
{
}

/// Law: `lock()` followed immediately by `unlock()` is a round trip. From a
/// state with no child tracked, locking spawns and records a child, and the
/// subsequent unlock returns the state to exactly what it was — and the
/// inhibitor is untouched through all three steps.
pub proof fn law_lock_unlock_round_trip(m: LockerView, p: int)
    requires
        m.child is None,
        m.pending is None,
    ensures
        ({
            let locked = lock_finish_step(lock_step(m, ChildObservation::NoChild), Some(p));
            &&& locked.child == Some(p)
            &&& locked.inhibitor == m.inhibitor
            &&& unlock_step(locked) == m
        }),
{
}

} // verus!
