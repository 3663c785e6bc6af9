//! Whole series of polls.
//!
//! [`Timed::poll`](crate::timed::Timed::poll) says what one poll does to the
//! totals. This module says what they are after any number of polls, and
//! during which poll the callback is called.

use crate::clock::span;
use crate::timed::TimedState;
use vstd::prelude::*;

verus! {

/// One poll of a computation.
pub struct Invocation {
    /// The clock reading right before the poll.
    pub start: nat,
    /// The clock reading right after the poll.
    pub end: nat,
    /// Whether the poll finished the computation.
    pub ready: bool,
}

/// The state that the polls of `trace`, in their order, lead to from `s`.
pub open spec fn run<F>(s: TimedState<F>, trace: Seq<Invocation>) -> TimedState<F>
    decreases trace.len(),
{
    if trace.len() == 0 {
        s
    } else {
        let last = trace.last();
        run(s, trace.drop_last()).step(last.start, last.end, last.ready)
    }
}

/// The time spent inside the polls of `trace`: the sum of their lengths.
pub open spec fn busy_sum(trace: Seq<Invocation>) -> nat
    decreases trace.len(),
{
    if trace.len() == 0 {
        0
    } else {
        busy_sum(trace.drop_last()) + span(trace.last().start, trace.last().end)
    }
}

/// The time spent between the polls of `trace`: the sum, over each poll but
/// the first, of the time from the end of the poll before it to its start.
pub open spec fn idle_sum(trace: Seq<Invocation>) -> nat
    decreases trace.len(),
{
    if trace.len() <= 1 {
        0
    } else {
        idle_sum(trace.drop_last()) + span(trace[trace.len() - 2].end, trace.last().start)
    }
}

/// The clock never went back during `trace`: no poll ends before it starts,
/// and none starts before the one before it has ended.
pub open spec fn monotonic(trace: Seq<Invocation>) -> bool {
    &&& forall|i: int| 0 <= i < trace.len() ==> (#[trigger] trace[i]).start <= trace[i].end
    &&& forall|i: int| 0 < i < trace.len() ==> trace[i - 1].end <= (#[trigger] trace[i]).start
}

/// Poll `k` of `trace` is the first that finishes the computation.
pub open spec fn first_ready(trace: Seq<Invocation>, k: int) -> bool {
    &&& 0 <= k < trace.len()
    &&& trace[k].ready
    &&& forall|j: int| 0 <= j < k ==> !(#[trigger] trace[j]).ready
}

/// A computation that finishes in its first poll has no idle time, and as
/// much busy time as that poll took: more than none if the clock moved.
pub proof fn lemma_finished_by_first_poll<F>(s: TimedState<F>, start: nat, end: nat)
    requires
        s.wf(),
        s.last_poll_end is None,
        start < end,
    ensures
        s.step(start, end, true).idle == 0,
        s.step(start, end, true).busy == end - start,
        s.step(start, end, true).busy > 0,
{
}

/// After any series of polls of a fresh wrapper, the idle time is the sum of
/// the gaps between consecutive polls and the busy time is the sum of the
/// lengths of the polls. Nothing before the first poll is counted.
pub proof fn lemma_totals<F>(s: TimedState<F>, trace: Seq<Invocation>)
    requires
        s.wf(),
        s.last_poll_end is None,
    ensures
        run(s, trace).idle == idle_sum(trace),
        run(s, trace).busy == busy_sum(trace),
        run(s, trace).last_poll_end == if trace.len() == 0 {
            None
        } else {
            Some(trace.last().end)
        },
        run(s, trace).wf(),
    decreases trace.len(),
{
    if trace.len() > 0 {
        let before = trace.drop_last();
        lemma_totals(s, before);
    }
}

/// If the clock never went back during a series of polls, it never went back
/// during the first `k` of them.
pub proof fn lemma_monotonic_prefix(trace: Seq<Invocation>, k: int)
    requires
        monotonic(trace),
        0 <= k <= trace.len(),
    ensures
        monotonic(trace.take(k)),
{
}

/// While the clock does not go back, idle and busy time together are the time
/// from the start of the first poll to the end of the last.
pub proof fn lemma_wall_time(trace: Seq<Invocation>)
    requires
        monotonic(trace),
        trace.len() > 0,
    ensures
        idle_sum(trace) + busy_sum(trace) == trace.last().end - trace[0].start,
    decreases trace.len(),
{
    let before = trace.drop_last();
    if before.len() > 0 {
        lemma_monotonic_prefix(trace, trace.len() - 1);
        lemma_wall_time(before);
    } else {
        assert(busy_sum(before) == 0);
    }
}

/// While the clock does not go back, the totals of a fresh wrapper never
/// outgrow the clock: every poll of a series is one that
/// [`Timed::poll`](crate::timed::Timed::poll) admits.
pub proof fn lemma_monotonic_admits<F>(s: TimedState<F>, trace: Seq<Invocation>, k: int)
    requires
        s.wf(),
        s.last_poll_end is None,
        monotonic(trace),
        0 <= k < trace.len(),
        trace[k].end <= u128::MAX,
    ensures
        run(s, trace.take(k)).admits(trace[k].start, trace[k].end),
{
    let before = trace.take(k);
    lemma_totals(s, before);
    if k > 0 {
        lemma_monotonic_prefix(trace, k);
        lemma_wall_time(before);
    }
}

/// Neither total ever shrinks.
pub proof fn lemma_totals_never_shrink<F>(s: TimedState<F>, trace: Seq<Invocation>)
    ensures
        run(s, trace).idle >= s.idle,
        run(s, trace).busy >= s.busy,
    decreases trace.len(),
{
    if trace.len() > 0 {
        lemma_totals_never_shrink(s, trace.drop_last());
    }
}

/// The callback is still there after a series of polls exactly if it was
/// there before and none of them finished the computation. It is never
/// replaced by another.
pub proof fn lemma_callback_kept<F>(s: TimedState<F>, trace: Seq<Invocation>)
    ensures
        run(s, trace).callback == if forall|j: int|
            0 <= j < trace.len() ==> !(#[trigger] trace[j]).ready {
            s.callback
        } else {
            None
        },
    decreases trace.len(),
{
    if trace.len() > 0 {
        let before = trace.drop_last();
        lemma_callback_kept(s, before);
        if !forall|j: int| 0 <= j < trace.len() ==> !(#[trigger] trace[j]).ready {
            let j = choose|j: int| 0 <= j < trace.len() && (#[trigger] trace[j]).ready;
            if j < before.len() {
                assert(before[j].ready);
            }
        }
    }
}

/// A wrapper that still has its callback calls it during exactly one poll of
/// a series: the first that finishes the computation.
pub proof fn lemma_reports_once<F>(s: TimedState<F>, trace: Seq<Invocation>, k: int)
    requires
        s.callback is Some,
        0 <= k < trace.len(),
    ensures
        run(s, trace.take(k)).reports(trace[k].ready) <==> first_ready(trace, k),
{
    let before = trace.take(k);
    lemma_callback_kept(s, before);
    if forall|j: int| 0 <= j < before.len() ==> !(#[trigger] before[j]).ready {
        assert forall|j: int| 0 <= j < k implies !(#[trigger] trace[j]).ready by {
            assert(!before[j].ready);
        }
    }
}

/// No two polls of a series call the callback, whatever state the series
/// starts from.
pub proof fn lemma_reports_at_most_once<F>(
    s: TimedState<F>,
    trace: Seq<Invocation>,
    i: int,
    j: int,
)
    requires
        0 <= i < j < trace.len(),
    ensures
        !(run(s, trace.take(i)).reports(trace[i].ready) && run(s, trace.take(j)).reports(
            trace[j].ready,
        )),
{
    if trace[i].ready {
        let before = trace.take(j);
        lemma_callback_kept(s, before);
        assert(before[i].ready);
    }
}

/// Once the callback has been called, no further poll calls it again,
/// whatever that poll returns.
pub proof fn lemma_silent_once_reported<F>(s: TimedState<F>, trace: Seq<Invocation>, k: int)
    requires
        s.callback is None,
        0 <= k < trace.len(),
    ensures
        !run(s, trace.take(k)).reports(trace[k].ready),
{
    lemma_callback_kept(s, trace.take(k));
}

} // verus!
