//! Blank every screen white until the user dismisses it.
//!
//! The crate holds the decisions of a screen-blanking utility: which windows
//! to open, how a frame is painted, and which input ends the session. The
//! program around it owns the windows and the event loop, feeds events in,
//! and carries the returned actions out.

pub mod application;
pub mod clock;
pub mod display;
pub mod event;
pub mod frame;
pub mod policy;
pub mod startup;
