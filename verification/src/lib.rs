//! Timing instrumentation for poll-driven computations.
//!
//! A computation that is advanced by repeated polls spends its life either
//! inside a poll (busy) or between two polls (idle). This crate holds the
//! bookkeeping for that split:
//!
//! * [`Timed`] adds up busy and idle time over all polls and hands the totals,
//!   as a [`Timing`], to a callback when the computation finishes;
//! * [`WarnIf`] compares the length of each single poll with a threshold and
//!   calls back for every poll that reaches it.
//!
//! Neither of them reads a clock or drives a computation. The caller brackets
//! each poll with two readings of a monotonic clock and passes them in,
//! together with what the poll returned. All times are whole nanoseconds.
//!
//! Every function here is verified against its contract; the module
//! [`history`] states what the totals of a whole series of polls are.

pub mod clock;
pub mod history;
pub mod task;
pub mod timed;
pub mod warn;

pub use timed::{timed, Timed, Timing};
pub use warn::{warn_if, WarnIf};
