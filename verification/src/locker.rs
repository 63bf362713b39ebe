//! The central state machine of the daemon.
//!
//! A `Locker` owns the daemon's mutable state: an optional held inhibitor
//! lock and an optional supervised screen-locker process, next to immutable
//! configuration. The session's lock/unlock requests, the system's
//! sleep/resume transitions and the periodic child poll are methods on it;
//! the caller serializes them (one mutual-exclusion boundary around the one
//! instance) and performs the returned commands.
//!
//! Starting the child process is the one effect the library cannot perform
//! itself, so the two transitions that may start one are split in two phases:
//! the first phase decides and hands out a [`SpawnRequest`], the caller
//! executes it, and the matching finish phase records the outcome. While a
//! spawn is in flight the `pending` marker is set and no other transition may
//! run, which keeps the phase protocol explicit in the contracts — in
//! particular that `on_sleep` releases the inhibitor only *after* the locker
//! has been started.

use vstd::prelude::*;

use crate::decimal::{decimal_digits, format_u32};
use crate::error::LockerError;
use crate::inhibit::{InhibitEvent, InhibitEventSet, InhibitMode, InhibitorLock};
use crate::process::SupervisedProcess;
use crate::session::SessionId;

verus! {

/// Which transition is waiting for a spawn outcome.
#[derive(Clone, Copy, Debug, PartialEq, Eq, Structural)]
pub enum PendingSpawn {
    /// A `lock()` asked for the child to be started.
    ForLock,
    /// An `on_sleep()` asked for the child to be started; the inhibitor is
    /// released when the outcome is recorded.
    ForSleep,
}

/// What a transition observed about the tracked child before acting.
#[derive(Clone, Copy, Debug, PartialEq, Eq, Structural)]
pub enum ChildObservation {
    /// No child was tracked.
    NoChild,
    /// A child was tracked and the non-blocking liveness check says it is
    /// still running.
    StillRunning,
    /// A child was tracked but it has exited (or can no longer be waited
    /// on); its handle was cleared.
    Gone,
}

/// The abstract state of a `Locker`: configuration, session, and the two
/// independently optional resources whose presence encodes the phase.
pub struct LockerView {
    pub pass_inhibitor_fd: bool,
    pub manage_idle_hint: bool,
    pub locker_command: Seq<Seq<char>>,
    pub session_id: Seq<char>,
    pub inhibitor: Option<int>,
    pub child: Option<int>,
    pub pending: Option<PendingSpawn>,
}

/// Configuration and session identity never change after construction.
pub open spec fn same_config(a: LockerView, b: LockerView) -> bool {
    &&& a.pass_inhibitor_fd == b.pass_inhibitor_fd
    &&& a.manage_idle_hint == b.manage_idle_hint
    &&& a.locker_command == b.locker_command
    &&& a.session_id == b.session_id
}

/// The invariant every live `Locker` maintains: a non-empty command line,
/// real resource handles, and no tracked child while a spawn is in flight.
pub open spec fn locker_inv(v: LockerView) -> bool {
    &&& v.locker_command.len() > 0
    &&& (v.inhibitor matches Some(fd) ==> fd >= 0)
    &&& (v.child matches Some(p) ==> p >= 1)
    &&& (v.pending is Some ==> v.child is None)
}

/// State after the first phase of starting the child for `kind`: a child
/// observed still running is left alone; otherwise the (dead or absent)
/// child is cleared and the spawn is marked pending.
pub open spec fn start_step(m: LockerView, obs: ChildObservation, kind: PendingSpawn) -> LockerView {
    if obs == ChildObservation::StillRunning {
        m
    } else {
        LockerView { child: None, pending: Some(kind), ..m }
    }
}

/// State after recording a spawn outcome: the child handle holds the new
/// pid, or nothing when the spawn failed; either way the pending marker is
/// cleared.
pub open spec fn spawn_done_step(m: LockerView, pid: Option<int>) -> LockerView {
    LockerView { child: pid, pending: None, ..m }
}

/// State after the first phase of `lock()`.
pub open spec fn lock_step(m: LockerView, obs: ChildObservation) -> LockerView {
    start_step(m, obs, PendingSpawn::ForLock)
}

/// State after `lock_finish()`.
pub open spec fn lock_finish_step(m: LockerView, pid: Option<int>) -> LockerView {
    spawn_done_step(m, pid)
}

/// State after the first phase of `on_sleep()`. When the locker is already
/// running the lock step is complete and the inhibitor is released at once;
/// otherwise the spawn is marked pending and the inhibitor is untouched —
/// it is released only by `on_sleep_finish`, after the spawn outcome.
pub open spec fn sleep_begin_step(m: LockerView, obs: ChildObservation) -> LockerView {
    if obs == ChildObservation::StillRunning {
        LockerView { inhibitor: None, ..m }
    } else {
        start_step(m, obs, PendingSpawn::ForSleep)
    }
}

/// State after `on_sleep_finish()`: the spawn outcome is recorded and the
/// inhibitor is released whether or not the spawn succeeded — a failed lock
/// attempt must never delay the suspend indefinitely.
pub open spec fn sleep_finish_step(m: LockerView, pid: Option<int>) -> LockerView {
    LockerView { inhibitor: None, ..spawn_done_step(m, pid) }
}

/// State after `on_resume()`: a fresh inhibitor is held; the child — if a
/// locker was already running before the sleep — is untouched.
pub open spec fn resume_step(m: LockerView, fd: int) -> LockerView {
    LockerView { inhibitor: Some(fd), ..m }
}

/// State after `unlock()`: the child handle is cleared (even when the kill
/// syscall failed); the inhibitor is untouched.
pub open spec fn unlock_step(m: LockerView) -> LockerView {
    LockerView { child: None, ..m }
}

/// State after `poll_locker()`: the child handle is cleared exactly when the
/// poll observed an exit.
pub open spec fn poll_step(m: LockerView, exited: bool) -> LockerView {
    if exited {
        LockerView { child: None, ..m }
    } else {
        m
    }
}

/// Everything the caller needs to start the screen-locker process: the
/// program, its arguments, and — when the daemon passes the inhibitor on —
/// the duplicated descriptor the child will inherit together with its
/// decimal text for the `XSS_SLEEP_LOCK_FD` environment variable.
pub struct SpawnRequest {
    pub program: String,
    pub args: Vec<String>,
    pub inhibitor_fd: Option<i32>,
    pub inhibitor_env: Option<String>,
}

/// A spawn request faithfully carries the configured command line and, when
/// configured, a real duplicated descriptor — distinct from the one the
/// still-held inhibitor keeps — with its decimal rendering.
pub open spec fn spawn_request_for(m: LockerView, req: SpawnRequest) -> bool {
    &&& req.program@ == m.locker_command[0]
    &&& req.args.deep_view() == m.locker_command.skip(1)
    &&& (req.inhibitor_fd is Some <==> m.pass_inhibitor_fd)
    &&& (req.inhibitor_fd matches Some(f) ==> f >= 0 && (m.inhibitor matches Some(held)
        && f != held) && (req.inhibitor_env matches Some(v) && v@ == decimal_digits(f as nat)))
    &&& (req.inhibitor_fd is None ==> req.inhibitor_env is None)
}

/// The name of the environment variable the duplicated inhibitor descriptor
/// travels in.
pub fn inhibitor_env_name() -> (r: &'static str)
    ensures
        r@ == "XSS_SLEEP_LOCK_FD"@,
{
    "XSS_SLEEP_LOCK_FD"
}

/// An inhibit request: who asks, why, which event classes, and how strongly.
pub struct InhibitRequest {
    pub who: String,
    pub why: String,
    pub events: InhibitEventSet,
    pub mode: InhibitMode,
}

/// The one inhibit request this daemon ever makes — at startup and again on
/// every resume: a lock on the sleep event class alone, in delay mode and
/// never block mode (the daemon only buys time to lock the screen, it never
/// prevents the suspend), under the daemon's own name.
pub fn sleep_inhibit_request() -> (r: InhibitRequest)
    ensures
        r.who@ == "desk-locker"@,
        r.why@ == "Lock screen on sleep"@,
        r.events@ == InhibitEvent::Sleep.spec_name() + ":"@,
        r.mode == InhibitMode::Delay,
{
    InhibitRequest {
        who: "desk-locker".to_owned(),
        why: "Lock screen on sleep".to_owned(),
        events: InhibitEventSet::with_event(InhibitEvent::Sleep),
        mode: InhibitMode::Delay,
    }
}

/// What the caller must do after the first phase of `lock()`.
pub struct LockPlan {
    /// What the transition observed about the previously tracked child.
    pub observed: ChildObservation,
    /// The process to start, if one is needed; its outcome goes to
    /// `lock_finish`.
    pub spawn: Option<SpawnRequest>,
    /// Whether to set the session idle hint true now. Never set together
    /// with a spawn request: when a spawn is needed the hint decision
    /// belongs to `lock_finish`, so that a failed spawn sets no hint.
    pub set_idle_hint: bool,
}

/// What the caller must do after `lock_finish()` recorded a successful
/// spawn.
pub struct LockDone {
    /// Whether to set the session idle hint true now.
    pub set_idle_hint: bool,
}

/// What the caller must do after the first phase of `on_sleep()`.
pub struct SleepPlan {
    /// What the transition observed about the previously tracked child.
    pub observed: ChildObservation,
    /// The process to start, if one is needed; its outcome goes to
    /// `on_sleep_finish`. When this is `None` the inhibitor has already been
    /// released.
    pub spawn: Option<SpawnRequest>,
}

/// What the caller must do after a successful `unlock()`.
pub struct UnlockDone {
    /// Whether to clear the session idle hint now.
    pub clear_idle_hint: bool,
}

/// What `poll_locker()` observed and what the caller must do about it.
pub struct PollOutcome {
    /// Whether the tracked child was observed to have exited.
    pub child_exited: bool,
    /// Whether to clear the session idle hint now: a hint must never remain
    /// "idle" once nothing is actually locking the screen.
    pub clear_idle_hint: bool,
}

/// The screen locker: one instance per daemon, the single source of truth,
/// all mutation serialized by the caller.
pub struct Locker {
    pass_inhibitor_fd: bool,
    manage_idle_hint: bool,
    locker_command: Vec<String>,
    session_id: SessionId,
    inhibitor_lock: Option<InhibitorLock>,
    locker_process: Option<SupervisedProcess>,
    pending: Option<PendingSpawn>,
}

impl View for Locker {
    type V = LockerView;

    closed spec fn view(&self) -> LockerView {
        LockerView {
            pass_inhibitor_fd: self.pass_inhibitor_fd,
            manage_idle_hint: self.manage_idle_hint,
            locker_command: self.locker_command.deep_view(),
            session_id: self.session_id@,
            inhibitor: match self.inhibitor_lock {
                Some(l) => Some(l@),
                None => None,
            },
            child: match self.locker_process {
                Some(p) => Some(p@),
                None => None,
            },
            pending: self.pending,
        }
    }
}

impl Locker {
    /// A live `Locker` always satisfies the state invariant.
    pub open spec fn wf(&self) -> bool {
        locker_inv(self@)
    }

    /// Creates a new locker from its configuration and the two startup
    /// ingredients the environment provides: the session id (if one could be
    /// resolved) and the initial delay-mode sleep inhibitor (if one could be
    /// acquired). Each missing ingredient is a distinct fatal error, checked
    /// in the order: command line, session id, inhibitor. The daemon cannot
    /// run without the initial inhibitor, so there is no degraded success.
    pub fn new(
        pass_inhibitor_fd: bool,
        manage_idle_hint: bool,
        locker_command: Vec<String>,
        session_id: Option<SessionId>,
        inhibitor: Option<InhibitorLock>,
    ) -> (r: Result<Locker, LockerError>)
        requires
            (inhibitor matches Some(l) ==> l.wf()),
        ensures
            locker_command@.len() == 0 ==> r == Err::<Locker, LockerError>(
                LockerError::ConfigError,
            ),
            locker_command@.len() > 0 && session_id is None ==> r == Err::<Locker, LockerError>(
                LockerError::NoSessionId,
            ),
            locker_command@.len() > 0 && session_id is Some && inhibitor is None ==> r == Err::<
                Locker,
                LockerError,
            >(LockerError::InhibitFailed),
            r is Ok <==> (locker_command@.len() > 0 && session_id is Some && inhibitor is Some),
            r matches Ok(lk) ==> lk.wf() && lk@ == (LockerView {
                pass_inhibitor_fd,
                manage_idle_hint,
                locker_command: locker_command.deep_view(),
                session_id: session_id->Some_0@,
                inhibitor: Some(inhibitor->Some_0@),
                child: None,
                pending: None,
            }),
    {
        if locker_command.len() == 0 {
            return Err(LockerError::ConfigError);
        }
        let sid = match session_id {
            Some(s) => s,
            None => {
                return Err(LockerError::NoSessionId);
            },
        };
        let inh = match inhibitor {
            Some(l) => l,
            None => {
                return Err(LockerError::InhibitFailed);
            },
        };
        Ok(
            Locker {
                pass_inhibitor_fd,
                manage_idle_hint,
                locker_command,
                session_id: sid,
                inhibitor_lock: Some(inh),
                locker_process: None,
                pending: None,
            },
        )
    }

    /// Observes the tracked child without changing any state: reports
    /// whether none is tracked, the tracked one still runs, or the tracked
    /// one is gone.
    fn check_child(&self) -> (obs: ChildObservation)
        requires
            self.wf(),
        ensures
            (obs == ChildObservation::NoChild <==> self@.child is None),
    {
        match &self.locker_process {
            None => ChildObservation::NoChild,
            Some(p) => {
                if p.is_alive() {
                    ChildObservation::StillRunning
                } else {
                    ChildObservation::Gone
                }
            },
        }
    }

    /// Assembles the spawn request for the configured command: program,
    /// arguments, and — when configured to pass the inhibitor on — a fresh
    /// duplicate of the held inhibitor's descriptor with its decimal text.
    /// Fails only on the descriptor: when the duplication syscall fails, or
    /// when no inhibitor is held to duplicate at all.
    fn build_spawn_request(&self) -> (r: Result<SpawnRequest, LockerError>)
        requires
            self.wf(),
        ensures
            r matches Ok(req) ==> spawn_request_for(self@, req),
            r matches Err(e) ==> e == LockerError::DescriptorError && self@.pass_inhibitor_fd,
            !self@.pass_inhibitor_fd ==> r is Ok,
            self@.pass_inhibitor_fd && self@.inhibitor is None ==> r == Err::<
                SpawnRequest,
                LockerError,
            >(LockerError::DescriptorError),
    {
        let program = self.locker_command[0].clone();
        let mut args: Vec<String> = Vec::new();
        let mut i: usize = 1;
        while i < self.locker_command.len()
            invariant
                1 <= i <= self.locker_command@.len(),
                args@.len() == i - 1,
                forall|j: int|
                    0 <= j < i - 1 ==> #[trigger] args@[j]@ == self.locker_command@[j + 1]@,
            decreases self.locker_command@.len() - i,
        {
            let e = self.locker_command[i].clone();
            args.push(e);
            i = i + 1;
        }
        proof {
            assert forall|j: int| 0 <= j < args.deep_view().len() implies args.deep_view()[j]
                == self.locker_command.deep_view().skip(1)[j] by {
                assert(args.deep_view()[j] == args@[j]@);
                assert(self.locker_command.deep_view().skip(1)[j]
                    == self.locker_command@[j + 1]@);
            }
            assert(args.deep_view() =~= self.locker_command.deep_view().skip(1));
        }
        let mut inhibitor_fd: Option<i32> = None;
        let mut inhibitor_env: Option<String> = None;
        if self.pass_inhibitor_fd {
            match &self.inhibitor_lock {
                Some(l) => {
                    match l.dup_fd() {
                        Ok(nfd) => {
                            inhibitor_fd = Some(nfd);
                            inhibitor_env = Some(format_u32(nfd as u32));
                        },
                        Err(e) => {
                            return Err(e);
                        },
                    }
                },
                None => {
                    // Nothing is held to duplicate: possible only in the
                    // window between a sleep and the matching resume. The
                    // lock attempt fails — it never panics.
                    return Err(LockerError::DescriptorError);
                },
            }
        }
        Ok(SpawnRequest { program, args, inhibitor_fd, inhibitor_env })
    }

    /// Releases the inhibitor lock, if held; a release with none held is a
    /// no-op, not an error. Afterwards no inhibitor is held, even when the
    /// close syscall failed.
    fn release_lock(&mut self) -> (r: Result<(), LockerError>)
        requires
            old(self).wf(),
        ensures
            final(self).wf(),
            final(self)@ == (LockerView { inhibitor: None, ..old(self)@ }),
            old(self)@.inhibitor is None ==> r is Ok,
            r matches Err(e) ==> e == LockerError::DescriptorError && old(self)@.inhibitor is Some,
    {
        match self.inhibitor_lock.take() {
            None => Ok(()),
            Some(l) => l.release(),
        }
    }

    /// Locks the screen, first phase: start of the child process,
    /// idempotently. A child observed still running is left alone — this is
    /// what makes repeated `lock()` calls spawn at most one process — and
    /// the returned plan asks only for the idle hint. Otherwise a stale
    /// handle is cleared and the plan carries a spawn request whose outcome
    /// must go to `lock_finish`; the idle hint is then set only there, so a
    /// failed spawn never sets it. Fails with `DescriptorError` only on the
    /// descriptor for the child: when the duplication syscall fails, or
    /// when the descriptor is to be passed on and no inhibitor is held
    /// (possible only between a sleep and the matching resume) — an error,
    /// never a panic. No child handle is recorded in that case and the
    /// daemon may retry on the next `lock()`.
    pub fn lock(&mut self) -> (r: Result<LockPlan, LockerError>)
        requires
            old(self).wf(),
            old(self)@.pending is None,
        ensures
            final(self).wf(),
            same_config(final(self)@, old(self)@),
            final(self)@.inhibitor == old(self)@.inhibitor,
            !old(self)@.pass_inhibitor_fd ==> r is Ok,
            old(self)@.pass_inhibitor_fd && old(self)@.inhibitor is None && old(self)@.child
                is None ==> r == Err::<LockPlan, LockerError>(LockerError::DescriptorError),
            r matches Ok(plan) ==> (plan.observed == ChildObservation::NoChild <==> old(self)@.child is None),
            r matches Ok(plan) ==> final(self)@ == lock_step(old(self)@, plan.observed),
            r matches Ok(plan) ==> (plan.observed == ChildObservation::StillRunning
                ==> plan.spawn is None && plan.set_idle_hint == old(self)@.manage_idle_hint),
            r matches Ok(plan) ==> (plan.observed != ChildObservation::StillRunning ==> (
            plan.spawn matches Some(req) && spawn_request_for(old(self)@, req))
                && !plan.set_idle_hint),
            r matches Err(e) ==> e == LockerError::DescriptorError && old(self)@.pass_inhibitor_fd && final(self)@ == (LockerView { child: None, ..old(self)@ }),
    {
        let observed = self.check_child();
        if observed == ChildObservation::StillRunning {
            return Ok(
                LockPlan { observed, spawn: None, set_idle_hint: self.manage_idle_hint },
            );
        }
        self.locker_process = None;
        let req = match self.build_spawn_request() {
            Ok(rq) => rq,
            Err(e) => {
                return Err(e);
            },
        };
        self.pending = Some(PendingSpawn::ForLock);
        Ok(LockPlan { observed, spawn: Some(req), set_idle_hint: false })
    }

    /// Locks the screen, second phase: records the spawn outcome. A
    /// successful spawn is tracked and the plan asks for the idle hint (when
    /// managed); a failed spawn records nothing, sets no hint, and reports
    /// `SpawnFailed`, leaving the daemon eligible to retry on the next
    /// `lock()`.
    pub fn lock_finish(&mut self, pid: Option<i32>) -> (r: Result<LockDone, LockerError>)
        requires
            old(self).wf(),
            old(self)@.pending == Some(PendingSpawn::ForLock),
            pid matches Some(p) ==> p >= 1,
        ensures
            final(self).wf(),
            same_config(final(self)@, old(self)@),
            final(self)@.inhibitor == old(self)@.inhibitor,
            pid matches Some(p) ==> final(self)@ == lock_finish_step(old(self)@, Some(p as int)),
            pid matches Some(p) ==> (r matches Ok(d) && d.set_idle_hint == old(self)@.manage_idle_hint),
            pid is None ==> final(self)@ == lock_finish_step(old(self)@, None) && r == Err::<
                LockDone,
                LockerError,
            >(LockerError::SpawnFailed),
    {
        self.pending = None;
        match pid {
            Some(p) => {
                self.locker_process = Some(SupervisedProcess::new(p));
                Ok(LockDone { set_idle_hint: self.manage_idle_hint })
            },
            None => {
                self.locker_process = None;
                Err(LockerError::SpawnFailed)
            },
        }
    }

    /// Prepares for system sleep, first phase: the locker is started (or
    /// found already running) strictly before the inhibitor is released.
    /// When the child already runs, the lock step is complete and the
    /// inhibitor is released immediately. When a spawn is needed, the
    /// inhibitor stays held — exactly as it was — until `on_sleep_finish`
    /// records the outcome; that order is load-bearing, since releasing
    /// first could let the system suspend before the locker exists. When
    /// the descriptor for the child cannot be had — the duplication syscall
    /// fails, or nothing is held to duplicate — the inhibitor is still
    /// released, since a failed lock attempt must never block sleep, and
    /// the failure is reported: an error, never a panic. A repeated sleep
    /// notification with nothing held and nothing to pass on is a plain
    /// no-op, not an error.
    pub fn on_sleep(&mut self) -> (r: Result<SleepPlan, LockerError>)
        requires
            old(self).wf(),
            old(self)@.pending is None,
        ensures
            final(self).wf(),
            same_config(final(self)@, old(self)@),
            !old(self)@.pass_inhibitor_fd && old(self)@.child is None ==> r is Ok,
            !old(self)@.pass_inhibitor_fd && old(self)@.inhibitor is None ==> r is Ok,
            r matches Ok(plan) ==> (plan.observed == ChildObservation::NoChild <==> old(self)@.child is None),
            r matches Ok(plan) ==> final(self)@ == sleep_begin_step(old(self)@, plan.observed),
            r matches Ok(plan) ==> (plan.observed == ChildObservation::StillRunning ==> plan.spawn
                is None),
            r matches Ok(plan) ==> (plan.observed != ChildObservation::StillRunning ==> (
            plan.spawn matches Some(req) && spawn_request_for(old(self)@, req)) && final(self)@.inhibitor == old(self)@.inhibitor),
            r matches Err(e) ==> e == LockerError::DescriptorError && final(self)@.pending is None
                && (old(self)@.pass_inhibitor_fd || old(self)@.inhibitor is Some)
                && (final(self)@ == (LockerView { child: None, inhibitor: None, ..old(self)@ })
                || (old(self)@.child is Some && old(self)@.inhibitor is Some && final(self)@
                == (LockerView { inhibitor: None, ..old(self)@ }))),
    {
        let observed = self.check_child();
        if observed == ChildObservation::StillRunning {
            // The locker already runs: the lock step is complete, release
            // the inhibitor now.
            return match self.release_lock() {
                Ok(()) => Ok(SleepPlan { observed, spawn: None }),
                Err(e) => Err(e),
            };
        }
        self.locker_process = None;
        match self.build_spawn_request() {
            Ok(req) => {
                self.pending = Some(PendingSpawn::ForSleep);
                Ok(SleepPlan { observed, spawn: Some(req) })
            },
            Err(e) => {
                // The lock attempt failed before a spawn could be issued;
                // sleep must not stay blocked, so release anyway.
                match self.release_lock() {
                    Ok(()) => Err(e),
                    Err(e2) => Err(e2),
                }
            },
        }
    }

    /// Prepares for system sleep, second phase: records the spawn outcome
    /// and releases the inhibitor — unconditionally, succeed or fail, so a
    /// failed lock attempt never becomes an unbounded suspend delay. A
    /// release with nothing held (a repeated sleep notification) is a no-op,
    /// not an error.
    pub fn on_sleep_finish(&mut self, pid: Option<i32>) -> (r: Result<(), LockerError>)
        requires
            old(self).wf(),
            old(self)@.pending == Some(PendingSpawn::ForSleep),
            pid matches Some(p) ==> p >= 1,
        ensures
            final(self).wf(),
            same_config(final(self)@, old(self)@),
            final(self)@.inhibitor is None,
            final(self)@.pending is None,
            pid matches Some(p) ==> final(self)@ == sleep_finish_step(old(self)@, Some(p as int)),
            pid is None ==> final(self)@ == sleep_finish_step(old(self)@, None) && r == Err::<
                (),
                LockerError,
            >(LockerError::SpawnFailed),
            pid matches Some(p) ==> (r is Ok || r == Err::<(), LockerError>(
                LockerError::DescriptorError,
            )),
            pid matches Some(p) && old(self)@.inhibitor is None ==> r is Ok,
    {
        self.pending = None;
        match pid {
            Some(p) => {
                self.locker_process = Some(SupervisedProcess::new(p));
                match self.release_lock() {
                    Ok(()) => Ok(()),
                    Err(e) => Err(e),
                }
            },
            None => {
                self.locker_process = None;
                // The spawn failure is the condition reported; the release
                // still happens so sleep is not delayed.
                let _ = self.release_lock();
                Err(LockerError::SpawnFailed)
            },
        }
    }

    /// Resumes from system sleep: a fresh inhibitor — acquired by the caller
    /// the moment the resume notification arrived — is installed
    /// unconditionally. The child process is not touched: a locker that was
    /// running before the sleep keeps running. In the (defensive) case where
    /// an inhibitor was somehow still held, it is released first; a failure
    /// of that release is reported but does not prevent the fresh inhibitor
    /// from being installed.
    pub fn on_resume(&mut self, fresh: InhibitorLock) -> (r: Result<(), LockerError>)
        requires
            old(self).wf(),
            fresh.wf(),
            old(self)@.pending is None,
        ensures
            final(self).wf(),
            same_config(final(self)@, old(self)@),
            final(self)@ == resume_step(old(self)@, fresh@),
            old(self)@.inhibitor is None ==> r is Ok,
            r matches Err(e) ==> e == LockerError::DescriptorError && old(self)@.inhibitor is Some,
    {
        let prior = self.release_lock();
        self.inhibitor_lock = Some(fresh);
        match prior {
            Ok(()) => Ok(()),
            Err(e) => Err(e),
        }
    }

    /// Unlocks the screen: kills the tracked child, if any, and asks the
    /// caller to clear the idle hint (when managed). The child handle is
    /// cleared even when the kill syscall fails — a future `lock()` must
    /// never stay permanently blocked — but the failure is reported and the
    /// idle hint is then left alone. With no child tracked this is a no-op
    /// that still clears the idle hint.
    pub fn unlock(&mut self) -> (r: Result<UnlockDone, LockerError>)
        requires
            old(self).wf(),
            old(self)@.pending is None,
        ensures
            final(self).wf(),
            same_config(final(self)@, old(self)@),
            final(self)@ == unlock_step(old(self)@),
            old(self)@.child is None ==> r is Ok,
            r matches Ok(d) ==> d.clear_idle_hint == old(self)@.manage_idle_hint,
            r matches Err(e) ==> e == LockerError::KillFailed && old(self)@.child is Some,
    {
        match self.locker_process.take() {
            None => Ok(UnlockDone { clear_idle_hint: self.manage_idle_hint }),
            Some(p) => {
                match p.kill() {
                    Ok(()) => Ok(UnlockDone { clear_idle_hint: self.manage_idle_hint }),
                    Err(e) => Err(e),
                }
            },
        }
    }

    /// Non-blocking reap of the child. Observing an exit — for any reason:
    /// the user unlocked, the locker crashed, something killed it — clears
    /// the handle and asks the caller to clear the idle hint (when managed),
    /// so the session is never marked idle while nothing locks the screen.
    /// This is the only path that detects a crashed locker.
    pub fn poll_locker(&mut self) -> (r: PollOutcome)
        requires
            old(self).wf(),
            old(self)@.pending is None,
        ensures
            final(self).wf(),
            same_config(final(self)@, old(self)@),
            final(self)@ == poll_step(old(self)@, r.child_exited),
            old(self)@.child is None ==> !r.child_exited,
            r.child_exited ==> old(self)@.child is Some,
            r.clear_idle_hint == (r.child_exited && old(self)@.manage_idle_hint),
    {
        let exited = match &self.locker_process {
            None => false,
            Some(p) => !p.is_alive(),
        };
        if exited {
            self.locker_process = None;
            PollOutcome { child_exited: true, clear_idle_hint: self.manage_idle_hint }
        } else {
            PollOutcome { child_exited: false, clear_idle_hint: false }
        }
    }

    /// The session this daemon manages.
    pub fn session_id(&self) -> (r: &SessionId)
        ensures
            r@ == self@.session_id,
    {
        &self.session_id
    }

    /// Whether this locker manages the session idle hint.
    pub fn manages_idle_hint(&self) -> (r: bool)
        ensures
            r == self@.manage_idle_hint,
    {
        self.manage_idle_hint
    }

    /// Whether this locker passes the inhibitor descriptor to the child.
    pub fn passes_inhibitor_fd(&self) -> (r: bool)
        ensures
            r == self@.pass_inhibitor_fd,
    {
        self.pass_inhibitor_fd
    }

    /// Whether an inhibitor lock is currently held.
    pub fn holds_inhibitor(&self) -> (r: bool)
        ensures
            r == (self@.inhibitor is Some),
    {
        match &self.inhibitor_lock {
            Some(_) => true,
            None => false,
        }
    }

    /// The pid of the tracked child, if one is tracked.
    pub fn child_pid(&self) -> (r: Option<i32>)
        requires
            self.wf(),
        ensures
            r is Some <==> self@.child is Some,
            r matches Some(p) ==> self@.child == Some(p as int),
    {
        match &self.locker_process {
            Some(p) => Some(p.pid()),
            None => None,
        }
    }

    /// Whether a spawn is in flight, waiting for its finish call.
    pub fn spawn_pending(&self) -> (r: Option<PendingSpawn>)
        ensures
            r == self@.pending,
    {
        self.pending
    }
}

} // verus!
