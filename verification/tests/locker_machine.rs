//! Tests of the locker state machine that need no real child process: a pid
//! far above the kernel's pid range behaves like a child that is already
//! gone (waits and kills on it fail), which exercises the self-healing
//! paths deterministically.

use desk_locker::error::LockerError;
use desk_locker::inhibit::InhibitorLock;
use desk_locker::locker::{ChildObservation, Locker, PendingSpawn};
use desk_locker::session::SessionId;

/// No process ever has this id: it is far above the kernel's maximum, so a
/// kill or wait on it always fails.
const ABSENT_PID: i32 = 2_000_000_000;

/// A descriptor index that is never open in the test process.
const UNOPENED_FD: i32 = 1_900_000_000;

/// A real descriptor to stand in for an inhibitor: a duplicate of stdin,
/// owned by the caller.
fn fresh_inhibitor() -> InhibitorLock {
    let stdin_lock = InhibitorLock::new(0);
    let fd = stdin_lock.dup_fd().expect("duplicating stdin failed");
    assert!(fd >= 0);
    InhibitorLock::new(fd)
}

fn make_locker(pass: bool, manage: bool, cmd: &[&str]) -> Locker {
    let command: Vec<String> = cmd.iter().map(|s| String::from(*s)).collect();
    Locker::new(
        pass,
        manage,
        command,
        Some(SessionId::new(String::from("7"))),
        Some(fresh_inhibitor()),
    )
    .expect("constructing locker failed")
}

#[test]
fn construction_requires_command() {
    let r = Locker::new(
        false,
        false,
        Vec::new(),
        Some(SessionId::new(String::from("7"))),
        Some(fresh_inhibitor()),
    );
    assert!(matches!(r, Err(LockerError::ConfigError)));
}

#[test]
fn construction_requires_session() {
    let r = Locker::new(false, false, vec![String::from("true")], None, Some(fresh_inhibitor()));
    assert!(matches!(r, Err(LockerError::NoSessionId)));
}

#[test]
fn construction_requires_inhibitor() {
    let r = Locker::new(
        false,
        false,
        vec![String::from("true")],
        Some(SessionId::new(String::from("7"))),
        None,
    );
    assert!(matches!(r, Err(LockerError::InhibitFailed)));
}

#[test]
fn construction_arms_the_locker() {
    let locker = make_locker(false, true, &["true"]);
    assert!(locker.holds_inhibitor());
    assert!(locker.child_pid().is_none());
    assert!(locker.manages_idle_hint());
    assert!(!locker.passes_inhibitor_fd());
    assert_eq!(locker.session_id().as_str(), "7");
    assert!(locker.spawn_pending().is_none());
}

#[test]
fn lock_requests_spawn() {
    let mut locker = make_locker(false, true, &["xsecurelock", "-n"]);
    let plan = locker.lock().expect("lock failed");
    assert_eq!(plan.observed, ChildObservation::NoChild);
    assert!(!plan.set_idle_hint);
    let req = plan.spawn.expect("no spawn request");
    assert_eq!(req.program, "xsecurelock");
    assert_eq!(req.args, vec!["-n"]);
    assert!(req.inhibitor_fd.is_none());
    assert!(req.inhibitor_env.is_none());
    assert_eq!(locker.spawn_pending(), Some(PendingSpawn::ForLock));
    let done = locker.lock_finish(Some(ABSENT_PID)).expect("finish failed");
    assert!(done.set_idle_hint);
    assert_eq!(locker.child_pid(), Some(ABSENT_PID));
    assert!(locker.spawn_pending().is_none());
}

#[test]
fn spawn_failure_leaves_no_child_and_allows_retry() {
    let mut locker = make_locker(false, true, &["true"]);
    let plan = locker.lock().expect("lock failed");
    assert!(plan.spawn.is_some());
    let r = locker.lock_finish(None);
    assert!(matches!(r, Err(LockerError::SpawnFailed)));
    assert!(locker.child_pid().is_none());
    // The daemon stays eligible to retry on the next lock.
    let retry = locker.lock().expect("retry lock failed");
    assert!(retry.spawn.is_some());
}

#[test]
fn unlock_without_child_is_a_noop_that_clears_the_hint() {
    let mut locker = make_locker(false, true, &["true"]);
    let done = locker.unlock().expect("unlock failed");
    assert!(done.clear_idle_hint);
    assert!(locker.child_pid().is_none());
    assert!(locker.holds_inhibitor());
}

#[test]
fn unlock_reports_kill_failure_but_clears_the_handle() {
    let mut locker = make_locker(false, false, &["true"]);
    locker.lock().expect("lock failed");
    locker.lock_finish(Some(ABSENT_PID)).expect("finish failed");
    let r = locker.unlock();
    assert!(matches!(r, Err(LockerError::KillFailed)));
    assert!(locker.child_pid().is_none());
    let retry = locker.lock().expect("lock after failed kill");
    assert!(retry.spawn.is_some());
}

#[test]
fn poll_clears_gone_child_and_idle_hint() {
    let mut locker = make_locker(false, true, &["true"]);
    locker.lock().expect("lock failed");
    locker.lock_finish(Some(ABSENT_PID)).expect("finish failed");
    let outcome = locker.poll_locker();
    assert!(outcome.child_exited);
    assert!(outcome.clear_idle_hint);
    assert!(locker.child_pid().is_none());
    let again = locker.poll_locker();
    assert!(!again.child_exited);
    assert!(!again.clear_idle_hint);
}

#[test]
fn poll_without_child_does_nothing() {
    let mut locker = make_locker(false, true, &["true"]);
    let outcome = locker.poll_locker();
    assert!(!outcome.child_exited);
    assert!(!outcome.clear_idle_hint);
    assert!(locker.holds_inhibitor());
}

#[test]
fn lock_unlock_round_trip_keeps_inhibitor() {
    let mut locker = make_locker(false, true, &["true"]);
    assert!(locker.holds_inhibitor());
    locker.lock().expect("lock failed");
    locker.lock_finish(Some(ABSENT_PID)).expect("finish failed");
    // The kill fails (no such process), but the state still returns to
    // exactly where it started: no child, inhibitor untouched.
    let _ = locker.unlock();
    assert!(locker.child_pid().is_none());
    assert!(locker.holds_inhibitor());
    assert!(locker.spawn_pending().is_none());
}

#[test]
fn sleep_spawns_then_releases_then_resume_rearms() {
    let mut locker = make_locker(false, false, &["true"]);
    let plan = locker.on_sleep().expect("sleep failed");
    assert_eq!(plan.observed, ChildObservation::NoChild);
    assert!(plan.spawn.is_some());
    // The spawn outcome is not recorded yet: the inhibitor is still held.
    assert!(locker.holds_inhibitor());
    assert_eq!(locker.spawn_pending(), Some(PendingSpawn::ForSleep));
    locker.on_sleep_finish(Some(ABSENT_PID)).expect("sleep finish failed");
    assert!(!locker.holds_inhibitor());
    assert_eq!(locker.child_pid(), Some(ABSENT_PID));
    // Resume acquires a fresh inhibitor and leaves the child alone.
    locker.on_resume(fresh_inhibitor()).expect("resume failed");
    assert!(locker.holds_inhibitor());
    assert_eq!(locker.child_pid(), Some(ABSENT_PID));
}

#[test]
fn sleep_releases_even_when_the_spawn_fails() {
    let mut locker = make_locker(false, false, &["true"]);
    let plan = locker.on_sleep().expect("sleep failed");
    assert!(plan.spawn.is_some());
    let r = locker.on_sleep_finish(None);
    assert!(matches!(r, Err(LockerError::SpawnFailed)));
    assert!(!locker.holds_inhibitor());
    assert!(locker.child_pid().is_none());
}

#[test]
fn repeated_sleep_release_is_a_noop() {
    let mut locker = make_locker(false, false, &["true"]);
    locker.on_sleep().expect("sleep failed");
    locker.on_sleep_finish(Some(ABSENT_PID)).expect("sleep finish failed");
    assert!(!locker.holds_inhibitor());
    // A second "about to sleep" with the recorded child already gone spawns
    // again; recording the outcome releases nothing (nothing is held) and
    // must not report an error.
    let plan = locker.on_sleep().expect("second sleep failed");
    assert_eq!(plan.observed, ChildObservation::Gone);
    assert!(plan.spawn.is_some());
    locker.on_sleep_finish(Some(ABSENT_PID + 1)).expect("second sleep finish failed");
    assert!(!locker.holds_inhibitor());
}

#[test]
fn lock_passes_duplicated_descriptor() {
    let mut locker = make_locker(true, false, &["true"]);
    let plan = locker.lock().expect("lock failed");
    let req = plan.spawn.expect("no spawn request");
    let fd = req.inhibitor_fd.expect("no inhibitor descriptor");
    assert!(fd >= 0);
    assert_eq!(req.inhibitor_env.expect("no env value"), fd.to_string());
    locker.lock_finish(Some(ABSENT_PID)).expect("finish failed");
}

#[test]
fn lock_reports_descriptor_error() {
    let mut locker = Locker::new(
        true,
        false,
        vec![String::from("true")],
        Some(SessionId::new(String::from("7"))),
        Some(InhibitorLock::new(UNOPENED_FD)),
    )
    .expect("constructing locker failed");
    let r = locker.lock();
    assert!(matches!(r, Err(LockerError::DescriptorError)));
    assert!(locker.child_pid().is_none());
    assert!(locker.spawn_pending().is_none());
    assert!(locker.holds_inhibitor());
}

#[test]
fn lock_without_inhibitor_fails_with_an_error() {
    // With the descriptor passed on, a lock() in the window where nothing
    // is held (between sleep and resume) cannot duplicate anything: it must
    // report DescriptorError — never panic — and leave the locker able to
    // retry after the resume re-arms it.
    let mut locker = make_locker(true, false, &["true"]);
    locker.on_sleep().expect("sleep failed");
    locker.on_sleep_finish(Some(ABSENT_PID)).expect("sleep finish failed");
    assert!(!locker.holds_inhibitor());
    // The recorded child is already gone, so this lock needs a spawn and
    // with it a duplicated descriptor, which nothing can provide.
    let r = locker.lock();
    assert!(matches!(r, Err(LockerError::DescriptorError)));
    assert!(locker.child_pid().is_none());
    assert!(locker.spawn_pending().is_none());
    locker.on_resume(fresh_inhibitor()).expect("resume failed");
    let retry = locker.lock().expect("lock after resume failed");
    assert!(retry.spawn.is_some());
}

#[test]
fn dup_returns_a_new_descriptor() {
    let stdin_lock = InhibitorLock::new(0);
    let fd = stdin_lock.dup_fd().expect("dup failed");
    // The duplicate is distinct from the original; with 0, 1 and 2 open, a
    // real duplicate gets a higher index.
    assert_ne!(fd, stdin_lock.fd());
    assert!(fd >= 3);
    let dup_lock = InhibitorLock::new(fd);
    assert_eq!(dup_lock.fd(), fd);
    dup_lock.release().expect("release failed");
}

#[test]
fn release_of_unopened_descriptor_fails() {
    let bogus = InhibitorLock::new(UNOPENED_FD);
    let r = bogus.release();
    assert!(matches!(r, Err(LockerError::DescriptorError)));
}
