//! Warning about single polls that take too long.

use crate::clock::{elapsed, span};
use std::task::Poll;
use vstd::prelude::*;

verus! {

/// What a [`WarnIf`] stands for: its threshold and its callback. Neither ever
/// changes.
pub struct WarnIfState<F> {
    /// The least length of a poll, in nanoseconds, that is warned about.
    pub threshold: nat,
    /// The closure that is called with the length of each such poll.
    pub callback: F,
}

impl<F> WarnIfState<F> {
    /// Whether a poll that took `busy` is slow: it is when it took at least as
    /// long as the threshold.
    pub open spec fn is_slow(self, busy: nat) -> bool {
        busy >= self.threshold
    }

    /// Whether a poll from `start` to `end` calls the callback.
    pub open spec fn warns(self, start: nat, end: nat) -> bool {
        self.is_slow(span(start, end))
    }
}

/// Measures every poll of a computation by itself and calls a closure with the
/// length of each poll that reaches a threshold.
pub struct WarnIf<F: Fn(u128)> {
    threshold: u128,
    op: F,
}

impl<F: Fn(u128)> View for WarnIf<F> {
    type V = WarnIfState<F>;

    closed spec fn view(&self) -> WarnIfState<F> {
        WarnIfState { threshold: self.threshold as nat, callback: self.op }
    }
}

impl<F: Fn(u128)> WarnIf<F> {
    #[verifier::type_invariant]
    spec fn inv(self) -> bool {
        forall|busy: u128| call_requires(self.op, (busy,))
    }

    /// Wraps the callback `op`, to be called for polls that take `threshold`
    /// nanoseconds or longer. It must accept every length.
    pub fn new(threshold: u128, op: F) -> (warn: Self)
        requires
            forall|busy: u128| call_requires(op, (busy,)),
        ensures
            warn@ == (WarnIfState { threshold: threshold as nat, callback: op }),
    {
        WarnIf { threshold, op }
    }

    /// The least length of a poll, in nanoseconds, that is warned about.
    pub fn threshold(&self) -> (threshold: u128)
        ensures
            threshold == self@.threshold,
    {
        self.threshold
    }

    /// Whether a poll that took `busy` nanoseconds is warned about.
    pub fn is_slow(&self, busy: u128) -> (slow: bool)
        ensures
            slow == self@.is_slow(busy as nat),
    {
        busy >= self.threshold
    }

    /// Accounts for one poll of the computation. `start` and `end` are the
    /// clock readings taken right before and right after the poll, `result` is
    /// what the poll returned.
    ///
    /// If the time from `start` to `end` reaches the threshold, the callback
    /// is called with it. Earlier polls play no part. `result` is handed back
    /// as it came.
    pub fn poll<T>(&self, start: u128, end: u128, result: Poll<T>) -> (out: Poll<T>)
        ensures
            out == result,
            self@.warns(start as nat, end as nat) ==> call_ensures(
                self@.callback,
                (span(start as nat, end as nat) as u128,),
                (),
            ),
    {
        proof {
            use_type_invariant(self);
        }
        let busy: u128 = elapsed(start, end);
        if self.is_slow(busy) {
            (self.op)(busy);
        }
        result
    }
}

/// Wraps the callback `op` in a [`WarnIf`]: `op` is called with the length of
/// each poll that takes `threshold` nanoseconds or longer.
pub fn warn_if<F>(threshold: u128, op: F) -> (warn: WarnIf<F>) where F: Fn(u128)
    requires
        forall|busy: u128| call_requires(op, (busy,)),
    ensures
        warn@ == (WarnIfState { threshold: threshold as nat, callback: op }),
{
    WarnIf::new(threshold, op)
}

} // verus!
