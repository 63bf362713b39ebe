//! A verified core for a screen-lock session daemon.
//!
//! The library models the daemon's central state machine: a `Locker` that
//! supervises an external screen-locking process and holds a delay-mode sleep
//! inhibitor so the screen is locked before the machine suspends. Session
//! lock/unlock requests, sleep/resume transitions and child liveness polls are
//! serialized transitions on that state machine; their contracts pin down the
//! ordering guarantees the daemon depends on (the locker is started before the
//! inhibitor is released, a fresh inhibitor is held after every resume, and a
//! dead child never leaves a stale idle hint behind).

pub mod actions;
pub mod decimal;
pub mod error;
pub mod inhibit;
pub mod laws;
pub mod locker;
pub mod process;
pub mod screensaver;
pub mod session;
mod sys;
