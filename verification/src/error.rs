//! The failure conditions the daemon distinguishes.

use vstd::prelude::*;

verus! {

/// Every failure the daemon can report is one of these named conditions.
///
/// The first three are fatal at construction: the daemon cannot run without a
/// locker command, a session id and an initial inhibitor. The rest are
/// recovered locally: the operation that raised one returns it without
/// panicking and leaves the `Locker` state consistent, so the next event can
/// retry.
#[derive(Clone, Copy, Debug, PartialEq, Eq, Structural)]
pub enum LockerError {
    /// The locker command line is empty.
    ConfigError,
    /// The session id could not be determined from the environment.
    NoSessionId,
    /// The initial sleep inhibitor could not be acquired.
    InhibitFailed,
    /// The screen-locker process could not be started.
    SpawnFailed,
    /// The kill syscall for the screen-locker process failed.
    KillFailed,
    /// Duplicating or closing an inhibitor file descriptor failed.
    DescriptorError,
    /// The session idle hint could not be updated.
    IdleHintFailed,
}

impl LockerError {
    /// The text this condition is reported with.
    pub open spec fn spec_message(self) -> Seq<char> {
        match self {
            LockerError::ConfigError => "locker command not provided"@,
            LockerError::NoSessionId => "XDG_SESSION_ID not set"@,
            LockerError::InhibitFailed => "taking sleep inhibitor lock failed"@,
            LockerError::SpawnFailed => "could not start screen locker"@,
            LockerError::KillFailed => "could not kill screen locker"@,
            LockerError::DescriptorError => "inhibitor lock file descriptor operation failed"@,
            LockerError::IdleHintFailed => "could not update session idle hint"@,
        }
    }

    /// A human-readable description of the condition.
    pub fn message(&self) -> (r: &'static str)
        ensures
            r@ == self.spec_message(),
    {
        match self {
            LockerError::ConfigError => "locker command not provided",
            LockerError::NoSessionId => "XDG_SESSION_ID not set",
            LockerError::InhibitFailed => "taking sleep inhibitor lock failed",
            LockerError::SpawnFailed => "could not start screen locker",
            LockerError::KillFailed => "could not kill screen locker",
            LockerError::DescriptorError => "inhibitor lock file descriptor operation failed",
            LockerError::IdleHintFailed => "could not update session idle hint",
        }
    }
}

} // verus!
