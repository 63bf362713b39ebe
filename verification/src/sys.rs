//! The trusted boundary to the operating system.
//!
//! Every call the verified core makes into the OS goes through one of the
//! wrappers below. Each wrapper holds exactly one outside call; its contract
//! states only what that call's documentation and source promise. Nothing can
//! be promised about which way a syscall goes — that depends on the state of
//! the OS — so the contracts say only what holds of every outcome.

use vstd::prelude::*;

use crate::process::ChildWait;

verus! {

/// Relies on nix::errno::Errno: the error code a failed syscall reports.
/// Carried through so a caller can log it; the verified core only maps it to
/// one of its own error conditions.
#[verifier::external_type_specification]
#[verifier::external_body]
pub struct ExErrno(nix::errno::Errno);

/// Relies on nix::unistd::dup: duplicates an open file descriptor. On success
/// the returned index is the lowest *unused* one — hence non-negative, and
/// distinct from the (open, therefore used) descriptor that was duplicated.
/// On failure the descriptor table is unchanged.
#[verifier::external_body]
pub(crate) fn sys_dup(fd: i32) -> (r: Result<i32, nix::errno::Errno>)
    requires
        fd >= 0,
    ensures
        r matches Ok(nfd) ==> nfd >= 0 && nfd != fd,
{
    nix::unistd::dup(fd)
}

/// Relies on nix::unistd::close: closes a file descriptor. The descriptor is
/// spent whether or not the call reports an error.
#[verifier::external_body]
pub(crate) fn sys_close(fd: i32) -> (r: Result<(), nix::errno::Errno>)
    requires
        fd >= 0,
{
    nix::unistd::close(fd)
}

/// Relies on nix::sys::signal::kill with SIGKILL: sends the termination
/// signal to one process. The pid is required to be positive because kill(2)
/// gives zero and negative ids a different meaning (process groups).
#[verifier::external_body]
pub(crate) fn sys_kill(pid: i32) -> (r: Result<(), nix::errno::Errno>)
    requires
        pid >= 1,
{
    nix::sys::signal::kill(nix::unistd::Pid::from_raw(pid), nix::sys::signal::Signal::SIGKILL)
}

/// Relies on nix::sys::wait::waitpid with WNOHANG: a non-blocking liveness
/// check on one child process. StillAlive means the child has not changed
/// state; Exited and Signaled mean it is gone and has been reaped. Stop and
/// continue reports cannot occur without the flags that request them, so any
/// other success still means the child exists. An error (the child is not
/// ours, or was already reaped) is reported as such.
#[verifier::external_body]
pub(crate) fn sys_wait_nohang(pid: i32) -> (r: ChildWait)
    requires
        pid >= 1,
{
    match nix::sys::wait::waitpid(
        nix::unistd::Pid::from_raw(pid),
        Some(nix::sys::wait::WaitPidFlag::WNOHANG),
    ) {
        Ok(nix::sys::wait::WaitStatus::StillAlive) => ChildWait::Running,
        Ok(nix::sys::wait::WaitStatus::Exited(_, _)) => ChildWait::Exited,
        Ok(nix::sys::wait::WaitStatus::Signaled(_, _, _)) => ChildWait::Exited,
        Ok(_) => ChildWait::Running,
        Err(_) => ChildWait::Failed,
    }
}

} // verus!
