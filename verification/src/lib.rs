//! Core of an employee-activity monitor.
//!
//! The library owns the stateful heart of the monitor: the tracking-session
//! state machine (start, stop, status), the cancellation discipline that
//! stops a running sampling loop exactly once per session, and the per-tick
//! decisions of the sampling loop itself.  Everything that talks to the
//! outside world — the GUI command surface, the OS query that produces one
//! activity sample, the clock, the emission sink — stays in a thin shell
//! around this crate and hands plain values in and out.

pub mod auth;
pub mod http;
pub mod laws;
pub mod record;
pub mod sampling;
pub mod session;
