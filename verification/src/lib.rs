//! Window-lifecycle and tray-menu coordination for a minimize-to-tray
//! desktop application.
//!
//! The library models the rules by which the single application window,
//! the system tray menu, the single-instance guard and the close-to-tray
//! policy interact: every native event becomes a tagged message, and a
//! single-threaded step function maps the current state and an event to
//! the next state and the one native action the host must perform.
//! The host (the unverified shell around this crate) owns the actual
//! windowing framework; it feeds events in and carries actions out.

pub mod lifecycle;
pub mod startup;
pub mod trace;
