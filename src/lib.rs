//! Pausable, resumable and terminating counters for a terminal time
//! tracker: a countdown `Timer`, a count-up `Stopwatch` and a `Pomodoro`
//! that cycles a timer through work and break phases.
//!
//! Time is handed in by the caller as a reading of a monotonic clock in
//! milliseconds (`now`); values are reported in whole seconds.
pub mod counter;
pub mod timer;
pub mod stopwatch;
pub mod pomodoro;
pub mod format;
pub mod laws;
