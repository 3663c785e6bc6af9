//! Measuring with a monotonic clock.
//!
//! A reading of the clock is a number of nanoseconds since some fixed origin.
//! Only differences between readings mean anything.

use vstd::prelude::*;

verus! {

/// The time that passes from the reading `from` to the reading `to`: their
/// difference, and zero where `to` is not later than `from`.
pub open spec fn span(from: nat, to: nat) -> nat {
    if to >= from {
        (to - from) as nat
    } else {
        0
    }
}

/// The time that passes between a poll that ended at `prev_end`, if there was
/// one, and the next that starts at `start`. Before the first poll no time
/// counts.
pub open spec fn gap(prev_end: Option<nat>, start: nat) -> nat {
    match prev_end {
        Some(end) => span(end, start),
        None => 0,
    }
}

/// Computes [`span`] on two clock readings.
pub fn elapsed(from: u128, to: u128) -> (d: u128)
    ensures
        d == span(from as nat, to as nat),
{
    if to >= from {
        to - from
    } else {
        0
    }
}

} // verus!
