//! A Pomodoro timer core, verified with Verus.
//!
//! The library models one countdown timer with three named kinds
//! (work, break, long break), a registry of configurable lengths,
//! an edge-triggered completion notifier with a session counter,
//! and an `MM:SS` display formatter. Time never comes from a clock
//! inside the library: every time-dependent operation takes the
//! current wall-clock instant as a plain millisecond count, so the
//! whole state machine is a total, verified function of its inputs.

pub mod display;
pub mod notify;
pub mod timer;
