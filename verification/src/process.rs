//! The supervised screen-locker process.

use vstd::prelude::*;

use crate::error::LockerError;
use crate::sys;

verus! {

/// What one non-blocking wait on the child reported.
#[derive(Clone, Copy, Debug, PartialEq, Eq, Structural)]
pub enum ChildWait {
    /// The child has not changed state: it is still running.
    Running,
    /// The child has exited (normally or by signal) and has been reaped.
    Exited,
    /// The wait call itself failed: the process is not a child of ours any
    /// more, so there is nothing left to supervise.
    Failed,
}

/// A handle on a process believed to be a running screen locker.
///
/// The daemon never knowingly keeps a handle to a process it is not prepared
/// to kill: the owner drops the handle the moment a liveness check observes
/// that the process is gone.
#[derive(Debug)]
pub struct SupervisedProcess {
    pid: i32,
}

impl View for SupervisedProcess {
    type V = int;

    closed spec fn view(&self) -> int {
        self.pid as int
    }
}

impl SupervisedProcess {
    /// A valid handle holds a positive process id: zero and negative values
    /// mean process groups to the signalling syscalls.
    pub open spec fn wf(&self) -> bool {
        self@ >= 1
    }

    /// Tracks a process that was just spawned.
    pub fn new(pid: i32) -> (r: SupervisedProcess)
        requires
            pid >= 1,
        ensures
            r@ == pid,
            r.wf(),
    {
        SupervisedProcess { pid }
    }

    /// The id of the tracked process.
    pub fn pid(&self) -> (r: i32)
        ensures
            r == self@,
    {
        self.pid
    }

    /// Non-blocking liveness check. Returns false as soon as the process has
    /// exited, for any reason; a failed wait also reports false, because a
    /// process that cannot be waited on is no longer ours to supervise.
    /// Whether the process is alive is decided by the OS, so nothing more can
    /// be promised about the result.
    pub fn is_alive(&self) -> bool
        requires
            self.wf(),
    {
        match sys::sys_wait_nohang(self.pid) {
            ChildWait::Running => true,
            ChildWait::Exited => false,
            ChildWait::Failed => false,
        }
    }

    /// Sends the termination signal to the tracked process. The handle is
    /// consumed either way: after a kill attempt the process is no longer
    /// supervised.
    pub fn kill(self) -> (r: Result<(), LockerError>)
        requires
            self.wf(),
        ensures
            r matches Err(e) ==> e == LockerError::KillFailed,
    {
        match sys::sys_kill(self.pid) {
            Ok(()) => Ok(()),
            Err(_) => Err(LockerError::KillFailed),
        }
    }
}

} // verus!
