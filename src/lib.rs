//! A Pomodoro / stopwatch timer: the countdown state machine, colour cycling
//! over configured palettes, and the decisions of the clock application.
pub mod timer;
pub mod theme;
pub mod reminder;
pub mod clock;
pub mod keys;
pub mod windows;
pub mod laws;
