//! Inhibitor locks and the value types that describe an inhibit request.

use vstd::prelude::*;
use vstd::string::StringExecFns;

use crate::error::LockerError;
use crate::sys;

verus! {

/// An event class whose handling can be inhibited by taking an inhibitor
/// lock. This daemon only ever inhibits `Sleep`.
#[derive(Debug, Eq, PartialEq, Copy, Clone, Hash)]
pub enum InhibitEvent {
    Shutdown,
    Sleep,
    Idle,
    HandlePowerKey,
    HandleSuspendKey,
    HandleHibernateKey,
    HandleLidSwitch,
}

impl InhibitEvent {
    /// The wire name of this event class.
    pub open spec fn spec_name(self) -> Seq<char> {
        match self {
            InhibitEvent::Shutdown => "shutdown"@,
            InhibitEvent::Sleep => "sleep"@,
            InhibitEvent::Idle => "idle"@,
            InhibitEvent::HandlePowerKey => "handle-power-key"@,
            InhibitEvent::HandleSuspendKey => "handle-suspend-key"@,
            InhibitEvent::HandleHibernateKey => "handle-hibernate-key"@,
            InhibitEvent::HandleLidSwitch => "handle-lid-switch"@,
        }
    }

    /// The name the session manager knows this event class by.
    pub fn as_str(self) -> (r: &'static str)
        ensures
            r@ == self.spec_name(),
    {
        match self {
            InhibitEvent::Shutdown => "shutdown",
            InhibitEvent::Sleep => "sleep",
            InhibitEvent::Idle => "idle",
            InhibitEvent::HandlePowerKey => "handle-power-key",
            InhibitEvent::HandleSuspendKey => "handle-suspend-key",
            InhibitEvent::HandleHibernateKey => "handle-hibernate-key",
            InhibitEvent::HandleLidSwitch => "handle-lid-switch",
        }
    }
}

/// A set of event classes to inhibit, in the colon-separated wire encoding
/// the session manager expects: each added event contributes its name and a
/// trailing colon.
#[derive(Default, Eq, PartialEq)]
pub struct InhibitEventSet(String);

impl View for InhibitEventSet {
    type V = Seq<char>;

    closed spec fn view(&self) -> Seq<char> {
        self.0@
    }
}

impl InhibitEventSet {
    /// Creates a new, empty event set.
    pub fn new() -> (r: InhibitEventSet)
        ensures
            r@ == Seq::<char>::empty(),
    {
        InhibitEventSet(String::new())
    }

    /// Creates a set containing one event.
    pub fn with_event(event: InhibitEvent) -> (r: InhibitEventSet)
        ensures
            r@ == event.spec_name() + ":"@,
    {
        let mut s = InhibitEventSet::new();
        s.add(event);
        proof {
            assert(s@ =~= event.spec_name() + ":"@);
        }
        s
    }

    /// Adds an event to the set. The encoding does not check for
    /// duplicates: an event added twice appears twice.
    pub fn add(&mut self, event: InhibitEvent)
        ensures
            final(self)@ == old(self)@ + event.spec_name() + ":"@,
    {
        self.0.append(event.as_str());
        self.0.append(":");
    }

    /// The wire encoding of the set.
    pub fn as_str(&self) -> (r: &str)
        ensures
            r@ == self@,
    {
        self.0.as_str()
    }
}

/// How strongly an event is inhibited. The daemon only ever uses `Delay`: it
/// must never prevent a suspend outright, only buy time to lock the screen
/// first.
#[derive(Debug, Eq, PartialEq, Copy, Clone, Hash)]
pub enum InhibitMode {
    /// Prevents the event from occurring while the lock is held.
    Block,
    /// Delays the event for a short period while the lock is held.
    Delay,
}

impl InhibitMode {
    /// The wire name of this mode.
    pub open spec fn spec_name(self) -> Seq<char> {
        match self {
            InhibitMode::Block => "block"@,
            InhibitMode::Delay => "delay"@,
        }
    }

    /// The name the session manager knows this mode by.
    pub fn as_str(self) -> (r: &'static str)
        ensures
            r@ == self.spec_name(),
    {
        match self {
            InhibitMode::Block => "block",
            InhibitMode::Delay => "delay",
        }
    }
}

/// A held inhibitor lock, owning exactly one file descriptor.
///
/// The only way to relinquish the lock is the consuming `release`, so a
/// double release is impossible by construction, and no live handle can ever
/// refer to a closed descriptor.
#[derive(Debug)]
pub struct InhibitorLock {
    fd: i32,
}

impl View for InhibitorLock {
    type V = int;

    closed spec fn view(&self) -> int {
        self.fd as int
    }
}

impl InhibitorLock {
    /// A live lock holds a real (non-negative) descriptor index.
    pub open spec fn wf(&self) -> bool {
        self@ >= 0
    }

    /// Wraps the descriptor a successful inhibit call handed out.
    pub fn new(fd: i32) -> (r: InhibitorLock)
        requires
            fd >= 0,
        ensures
            r@ == fd,
            r.wf(),
    {
        InhibitorLock { fd }
    }

    /// The descriptor index backing this lock.
    pub fn fd(&self) -> (r: i32)
        ensures
            r == self@,
    {
        self.fd
    }

    /// Duplicates the descriptor backing this lock, so a child process can be
    /// handed an independently owned reference to the same inhibitor. The new
    /// descriptor is distinct from the one this lock keeps owning; the caller
    /// is responsible for it. Fails with `DescriptorError` when the duplicate
    /// syscall fails (for example on descriptor-table exhaustion); whether it
    /// does is up to the OS.
    pub fn dup_fd(&self) -> (r: Result<i32, LockerError>)
        requires
            self.wf(),
        ensures
            r matches Ok(nfd) ==> nfd >= 0 && nfd != self@,
            r matches Err(e) ==> e == LockerError::DescriptorError,
    {
        match sys::sys_dup(self.fd) {
            Ok(nfd) => Ok(nfd),
            Err(_) => Err(LockerError::DescriptorError),
        }
    }

    /// Releases the lock by closing its descriptor. The handle is consumed
    /// either way: even when the close syscall reports an error, the
    /// descriptor is spent and the inhibitor is no longer held.
    pub fn release(self) -> (r: Result<(), LockerError>)
        requires
            self.wf(),
        ensures
            r matches Err(e) ==> e == LockerError::DescriptorError,
    {
        match sys::sys_close(self.fd) {
            Ok(()) => Ok(()),
            Err(_) => Err(LockerError::DescriptorError),
        }
    }
}

} // verus!
