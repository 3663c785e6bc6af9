//! Busy and idle time of a computation, added up over all of its polls.

use crate::clock::{elapsed, gap, span};
use std::task::Poll;
use vstd::prelude::*;

verus! {

/// Timing information for an instrumented computation, in nanoseconds.
#[derive(Clone, Copy, Debug, Hash, PartialEq, Eq, Structural)]
pub struct Timing {
    /// The sum of all the time between the end of one poll and the start of
    /// the next. The time before the first poll is not included.
    pub idle: u128,
    /// The sum of all the time spent inside polls.
    pub busy: u128,
}

/// What a [`Timed`] stands for: the totals so far, where the last poll ended,
/// and the callback as long as it has not been called.
pub struct TimedState<F> {
    /// The clock reading at the end of the last poll; `None` before the first.
    pub last_poll_end: Option<nat>,
    /// The idle time so far.
    pub idle: nat,
    /// The busy time so far.
    pub busy: nat,
    /// The completion callback; `None` once it has been called.
    pub callback: Option<F>,
}

impl<F> TimedState<F> {
    /// The state of a wrapper that has not been polled.
    pub open spec fn initial(op: F) -> Self {
        TimedState { last_poll_end: None, idle: 0, busy: 0, callback: Some(op) }
    }

    /// The state after a poll that started at `start` and ended at `end`.
    /// `ready` says whether that poll finished the computation.
    pub open spec fn step(self, start: nat, end: nat, ready: bool) -> Self {
        TimedState {
            last_poll_end: Some(end),
            idle: self.idle + gap(self.last_poll_end, start),
            busy: self.busy + span(start, end),
            callback: if ready {
                None
            } else {
                self.callback
            },
        }
    }

    /// Whether a poll in this state calls the callback: it does when the poll
    /// finishes the computation and the callback is still there.
    pub open spec fn reports(self, ready: bool) -> bool {
        ready && self.callback is Some
    }

    /// Nothing has been added up before the first poll.
    pub open spec fn wf(self) -> bool {
        self.last_poll_end is None ==> self.idle == 0 && self.busy == 0
    }

    /// Whether the totals can take a poll from `start` to `end`: whether each
    /// still fits in a `u128` afterwards.
    pub open spec fn admits(self, start: nat, end: nat) -> bool {
        &&& self.idle + gap(self.last_poll_end, start) <= u128::MAX
        &&& self.busy + span(start, end) <= u128::MAX
    }

    /// The totals as the record that the callback receives.
    pub open spec fn totals(self) -> Timing {
        Timing { idle: self.idle as u128, busy: self.busy as u128 }
    }
}

/// Adds up the busy and idle time of a computation, poll by poll, and calls a
/// closure with the totals when the computation finishes.
pub struct Timed<F: FnOnce(Timing)> {
    last_poll_end: Option<u128>,
    timing: Timing,
    op: Option<F>,
}

impl<F: FnOnce(Timing)> View for Timed<F> {
    type V = TimedState<F>;

    closed spec fn view(&self) -> TimedState<F> {
        TimedState {
            last_poll_end: match self.last_poll_end {
                Some(end) => Some(end as nat),
                None => None,
            },
            idle: self.timing.idle as nat,
            busy: self.timing.busy as nat,
            callback: self.op,
        }
    }
}

impl<F: FnOnce(Timing)> Timed<F> {
    #[verifier::type_invariant]
    spec fn inv(self) -> bool {
        &&& self@.wf()
        &&& self.op matches Some(op) ==> forall|t: Timing| call_requires(op, (t,))
    }

    /// Wraps the callback `op`. It must accept every record.
    pub fn new(op: F) -> (timed: Self)
        requires
            forall|t: Timing| call_requires(op, (t,)),
        ensures
            timed@ == TimedState::initial(op),
    {
        Timed { last_poll_end: None, timing: Timing { idle: 0, busy: 0 }, op: Some(op) }
    }

    /// The totals so far.
    pub fn timing(&self) -> (timing: Timing)
        ensures
            timing.idle == self@.idle,
            timing.busy == self@.busy,
    {
        self.timing
    }

    /// The clock reading at the end of the last poll, if there was a poll.
    pub fn last_poll_end(&self) -> (end: Option<u128>)
        ensures
            match end {
                Some(end) => self@.last_poll_end == Some(end as nat),
                None => self@.last_poll_end is None,
            },
    {
        self.last_poll_end
    }

    /// Whether [`poll`](Self::poll) may be called with the clock readings
    /// `start` and `end`: it may unless a total would grow beyond what a
    /// `u128` holds.
    pub fn admits(&self, start: u128, end: u128) -> (ok: bool)
        ensures
            ok == self@.admits(start as nat, end as nat),
    {
        let idle: u128 = match self.last_poll_end {
            Some(prev) => elapsed(prev, start),
            None => 0,
        };
        let busy: u128 = elapsed(start, end);
        idle <= u128::MAX - self.timing.idle && busy <= u128::MAX - self.timing.busy
    }

    /// Accounts for one poll of the computation. `start` and `end` are the
    /// clock readings taken right before and right after the poll, `result` is
    /// what the poll returned.
    ///
    /// The time since the end of the previous poll, if there was one, is added
    /// to the idle time, and the time from `start` to `end` to the busy time.
    /// If the poll finished the computation, the callback is taken out and
    /// called with the totals, this poll included. `result` is handed back as
    /// it came.
    ///
    /// The totals must be able to take the poll, which [`admits`](Self::admits)
    /// tests. With a clock that never goes back they always are:
    /// [`lemma_monotonic_admits`](crate::history::lemma_monotonic_admits).
    pub fn poll<T>(&mut self, start: u128, end: u128, result: Poll<T>) -> (out: Poll<T>)
        requires
            old(self)@.admits(start as nat, end as nat),
        ensures
            out == result,
            final(self)@ == old(self)@.step(start as nat, end as nat, result is Ready),
            old(self)@.last_poll_end is None ==> final(self)@.idle == 0 && final(self)@.busy
                == span(start as nat, end as nat),
            old(self)@.reports(result is Ready) ==> call_ensures(
                old(self)@.callback->0,
                (final(self)@.totals(),),
                (),
            ),
    {
        proof {
            use_type_invariant(&*self);
        }
        let idle: u128 = match self.last_poll_end {
            Some(prev) => self.timing.idle + elapsed(prev, start),
            None => self.timing.idle,
        };
        let busy: u128 = self.timing.busy + elapsed(start, end);
        self.last_poll_end = Some(end);
        self.timing = Timing { idle, busy };
        match result {
            Poll::Pending => Poll::Pending,
            Poll::Ready(output) => {
                let mut slot: Option<F> = None;
                std::mem::swap(&mut self.op, &mut slot);
                if let Some(op) = slot {
                    op(self.timing);
                }
                Poll::Ready(output)
            },
        }
    }
}

/// Wraps the callback `f` in a [`Timed`]: `f` is called with the busy and idle
/// time of the computation when a poll finishes it.
pub fn timed<F>(f: F) -> (timed: Timed<F>) where F: FnOnce(Timing)
    requires
        forall|t: Timing| call_requires(f, (t,)),
    ensures
        timed@ == TimedState::initial(f),
{
    Timed::new(f)
}

} // verus!
