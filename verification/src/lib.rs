//! A Pomodoro-style stopwatch kept apart from the toolkits that draw it.
//!
//! Time enters as readings of a monotonic clock in nanoseconds, user input as
//! plain values; every state change is a verified function with an exact
//! contract.

pub mod framework;
pub mod gui_frameworks;
pub mod stopwatch;
pub mod tomato;
