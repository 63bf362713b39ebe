//! Tests of the value types: inhibit events and modes, event sets, session
//! ids, error messages, decimal rendering, and screen-saver events.

use desk_locker::decimal::format_u32;
use desk_locker::error::LockerError;
use desk_locker::inhibit::{InhibitEvent, InhibitEventSet, InhibitMode};
use desk_locker::locker::{inhibitor_env_name, sleep_inhibit_request};
use desk_locker::screensaver::ScreenSaverEvent;
use desk_locker::session::SessionId;

#[test]
fn inhibit_event_names() {
    assert_eq!(InhibitEvent::Shutdown.as_str(), "shutdown");
    assert_eq!(InhibitEvent::Sleep.as_str(), "sleep");
    assert_eq!(InhibitEvent::Idle.as_str(), "idle");
    assert_eq!(InhibitEvent::HandlePowerKey.as_str(), "handle-power-key");
    assert_eq!(InhibitEvent::HandleSuspendKey.as_str(), "handle-suspend-key");
    assert_eq!(InhibitEvent::HandleHibernateKey.as_str(), "handle-hibernate-key");
    assert_eq!(InhibitEvent::HandleLidSwitch.as_str(), "handle-lid-switch");
}

#[test]
fn inhibit_mode_names() {
    assert_eq!(InhibitMode::Block.as_str(), "block");
    assert_eq!(InhibitMode::Delay.as_str(), "delay");
}

#[test]
fn event_set_empty() {
    let s = InhibitEventSet::new();
    assert_eq!(s.as_str(), "");
}

#[test]
fn event_set_single() {
    let s = InhibitEventSet::with_event(InhibitEvent::Sleep);
    assert_eq!(s.as_str(), "sleep:");
}

#[test]
fn event_set_multiple() {
    let mut s = InhibitEventSet::with_event(InhibitEvent::Sleep);
    s.add(InhibitEvent::Idle);
    s.add(InhibitEvent::Shutdown);
    assert_eq!(s.as_str(), "sleep:idle:shutdown:");
}

#[test]
fn session_id_round_trip() {
    let sid = SessionId::new(String::from("c2"));
    assert_eq!(sid.as_str(), "c2");
}

#[test]
fn error_messages() {
    assert_eq!(LockerError::ConfigError.message(), "locker command not provided");
    assert_eq!(LockerError::NoSessionId.message(), "XDG_SESSION_ID not set");
    assert_eq!(LockerError::InhibitFailed.message(), "taking sleep inhibitor lock failed");
    assert_eq!(LockerError::SpawnFailed.message(), "could not start screen locker");
    assert_eq!(LockerError::KillFailed.message(), "could not kill screen locker");
    assert_eq!(
        LockerError::DescriptorError.message(),
        "inhibitor lock file descriptor operation failed"
    );
    assert_eq!(LockerError::IdleHintFailed.message(), "could not update session idle hint");
}

#[test]
fn decimal_rendering() {
    assert_eq!(format_u32(0), "0");
    assert_eq!(format_u32(7), "7");
    assert_eq!(format_u32(10), "10");
    assert_eq!(format_u32(109), "109");
    assert_eq!(format_u32(1234567), "1234567");
    assert_eq!(format_u32(u32::MAX), "4294967295");
}

#[test]
fn env_name() {
    assert_eq!(inhibitor_env_name(), "XSS_SLEEP_LOCK_FD");
}

#[test]
fn inhibit_request_policy() {
    // The daemon only ever inhibits the sleep event class, only in delay
    // mode, under its own name.
    let req = sleep_inhibit_request();
    assert_eq!(req.who, "desk-locker");
    assert_eq!(req.why, "Lock screen on sleep");
    assert_eq!(req.events.as_str(), "sleep:");
    assert_eq!(req.mode, InhibitMode::Delay);
    assert_eq!(req.mode.as_str(), "delay");
}

#[test]
fn screensaver_state_decoding() {
    assert_eq!(ScreenSaverEvent::from_state(0), Some(ScreenSaverEvent::Off));
    assert_eq!(ScreenSaverEvent::from_state(1), Some(ScreenSaverEvent::On));
    assert_eq!(ScreenSaverEvent::from_state(2), Some(ScreenSaverEvent::Cycle));
    assert_eq!(ScreenSaverEvent::from_state(3), Some(ScreenSaverEvent::Disabled));
    assert_eq!(ScreenSaverEvent::from_state(4), None);
    assert_eq!(ScreenSaverEvent::from_state(255), None);
}

#[test]
fn screensaver_lock_rule() {
    assert!(ScreenSaverEvent::On.triggers_lock());
    assert!(ScreenSaverEvent::Cycle.triggers_lock());
    assert!(!ScreenSaverEvent::Off.triggers_lock());
    assert!(!ScreenSaverEvent::Disabled.triggers_lock());
}
