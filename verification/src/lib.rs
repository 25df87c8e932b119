//! A stopwatch timer core.
//!
//! The timer tracks a running flag and a reference instant, keeps an ordered
//! list of observer registrations, and, when a cooperative schedule fires,
//! decides whether the schedule keeps going and which `(hours, minutes)`
//! notification each observer receives. The host (a window, a terminal loop)
//! owns the clock and the event loop; it hands the timer plain millisecond
//! timestamps and delivers the notifications the timer computes.

pub mod laws;
pub mod timer;
