//! Screen-saver events and the coordinator's rule for reacting to them.

use vstd::prelude::*;

verus! {

/// Events produced by the windowing system when the screen saver changes
/// state.
#[derive(Debug, Copy, Clone, Eq, PartialEq, Structural)]
pub enum ScreenSaverEvent {
    /// The screen saver turned on.
    On,
    /// The screen saver turned off.
    Off,
    /// The screen saver cycled to a new image.
    Cycle,
    /// The screen saver was disabled.
    Disabled,
}

impl ScreenSaverEvent {
    /// Decodes the state field of a screen-saver notify event. The protocol
    /// encodes the states as: 0 off, 1 on, 2 cycle, 3 disabled; any other
    /// value is unknown and yields no event.
    pub fn from_state(state: u8) -> (r: Option<ScreenSaverEvent>)
        ensures
            state == 0 ==> r == Some(ScreenSaverEvent::Off),
            state == 1 ==> r == Some(ScreenSaverEvent::On),
            state == 2 ==> r == Some(ScreenSaverEvent::Cycle),
            state == 3 ==> r == Some(ScreenSaverEvent::Disabled),
            state > 3 ==> r is None,
    {
        if state == 0 {
            Some(ScreenSaverEvent::Off)
        } else if state == 1 {
            Some(ScreenSaverEvent::On)
        } else if state == 2 {
            Some(ScreenSaverEvent::Cycle)
        } else if state == 3 {
            Some(ScreenSaverEvent::Disabled)
        } else {
            None
        }
    }

    /// The coordinator's rule: a screen saver turning on or cycling locks
    /// the screen. A deactivation is deliberately ignored — the daemon never
    /// auto-unlocks when an idle timer flickers off; only an explicit
    /// session unlock notification unlocks.
    pub fn triggers_lock(self) -> (r: bool)
        ensures
            r <==> (self == ScreenSaverEvent::On || self == ScreenSaverEvent::Cycle),
    {
        match self {
            ScreenSaverEvent::On => true,
            ScreenSaverEvent::Cycle => true,
            ScreenSaverEvent::Off => false,
            ScreenSaverEvent::Disabled => false,
        }
    }
}

} // verus!
