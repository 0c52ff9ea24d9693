//! How often the collector looks into the channel, and why that is enough.
//!
//! The prober produces at most one outcome per probe interval. The collector
//! polls at exactly half that interval; the period is kept in microseconds,
//! so that half of an odd number of milliseconds is not rounded. The model
//! below replays any interleaving of pushes and polls against a bounded
//! first-in-first-out queue. It shows that polls at no more than half the
//! probe interval take every outcome out before the next one arrives, and
//! that even polls as far apart as one whole probe interval never let a
//! channel of two slots fill up: no push finds the queue full, and every
//! outcome comes out in the order it went in.

use crate::channel::{Delivery, Polled};
use crate::outcome::ProbeOutcome;
use vstd::prelude::*;

verus! {

/// Slots in the channel between a prober and its collector.
pub const RESULT_CHANNEL_CAPACITY: usize = 5;

/// Microseconds in half a millisecond.
pub const MICROS_PER_HALF_MILLI: u128 = 500;

/// The collector's polling period, in microseconds, for a probe interval in
/// milliseconds: exactly half of it.
pub open spec fn collector_period_us(interval_ms: nat) -> nat {
    interval_ms * 500
}

/// The period, in microseconds, at which a collector polls when probes are
/// `ping_interval_ms` milliseconds apart: half the probe interval, for every
/// interval.
pub fn receive_interval(ping_interval_ms: u64) -> (period_us: u128)
    ensures
        period_us == collector_period_us(ping_interval_ms as nat),
        2 * period_us == 1_000 * ping_interval_ms,
{
    ping_interval_ms as u128 * MICROS_PER_HALF_MILLI
}

/// What one of the two loops does to the channel.
pub enum Step {
    /// The prober hands over an outcome.
    Push(ProbeOutcome),
    /// The collector looks for an outcome.
    Poll,
}

/// A step and the time at which it happens. Times, intervals and gaps are
/// whole numbers of one unit of time, whichever it is.
pub struct Event {
    pub at: nat,
    pub step: Step,
}

/// The channel and its history.
pub struct Line {
    /// Outcomes waiting in the channel, oldest first.
    pub queued: Seq<ProbeOutcome>,
    /// Outcomes the collector has taken out, in the order it took them.
    pub seen: Seq<ProbeOutcome>,
    /// Pushes that found the channel full.
    pub lost: nat,
}

/// The channel before anything happened.
pub open spec fn idle_line() -> Line {
    Line { queued: Seq::empty(), seen: Seq::empty(), lost: 0 }
}

/// What the channel answers to a push in this state.
pub open spec fn push_answer(line: Line, capacity: nat) -> Delivery {
    if line.queued.len() < capacity {
        Delivery::Sent
    } else {
        Delivery::Full
    }
}

/// What the channel answers to a poll in this state.
pub open spec fn poll_answer(line: Line) -> Polled {
    if line.queued.len() > 0 {
        Polled::Outcome(line.queued[0])
    } else {
        Polled::Empty
    }
}

/// The channel after one step.
pub open spec fn advance(line: Line, capacity: nat, step: Step) -> Line {
    match step {
        Step::Push(outcome) => if line.queued.len() < capacity {
            Line { queued: line.queued.push(outcome), ..line }
        } else {
            Line { lost: line.lost + 1, ..line }
        },
        Step::Poll => if line.queued.len() > 0 {
            Line {
                queued: line.queued.drop_first(),
                seen: line.seen.push(line.queued[0]),
                ..line
            }
        } else {
            line
        },
    }
}

/// The channel after the first `n` steps of `trace`, taken in order from the
/// idle channel.
pub open spec fn line_after(trace: Seq<Event>, n: nat, capacity: nat) -> Line
    decreases n,
{
    if n == 0 {
        idle_line()
    } else {
        advance(line_after(trace, (n - 1) as nat, capacity), capacity, trace[n - 1].step)
    }
}

/// The outcomes that the pushes among the first `n` steps of `trace` carry,
/// in order.
pub open spec fn produced(trace: Seq<Event>, n: nat) -> Seq<ProbeOutcome>
    decreases n,
{
    if n == 0 {
        Seq::empty()
    } else {
        match trace[n - 1].step {
            Step::Push(outcome) => produced(trace, (n - 1) as nat).push(outcome),
            Step::Poll => produced(trace, (n - 1) as nat),
        }
    }
}

/// The time from event `i` of the trace to event `j`.
pub open spec fn elapsed(trace: Seq<Event>, i: int, j: int) -> int {
    trace[j].at - trace[i].at
}

/// Some poll lies strictly between events `i` and `j`.
pub open spec fn poll_between(trace: Seq<Event>, i: int, j: int) -> bool {
    exists|k: int| #![trigger trace[k]] i < k < j && trace[k].step is Poll
}

/// Time never runs backwards along the trace.
pub open spec fn chronological(trace: Seq<Event>) -> bool {
    forall|i: int, j: int| 0 <= i <= j < trace.len() ==> #[trigger] elapsed(trace, i, j) >= 0
}

/// Any two pushes are at least `interval` apart.
pub open spec fn probes_spaced(trace: Seq<Event>, interval: nat) -> bool {
    forall|i: int, j: int|
        0 <= i < j < trace.len() && trace[i].step is Push && trace[j].step is Push
            ==> #[trigger] elapsed(trace, i, j) >= interval
}

/// Any two events more than `gap` apart have a poll between them.
pub open spec fn polls_keep_pace(trace: Seq<Event>, gap: nat) -> bool {
    forall|i: int, j: int|
        0 <= i < j < trace.len() && #[trigger] elapsed(trace, i, j) > gap ==> poll_between(
            trace,
            i,
            j,
        )
}

/// A trace in which the prober and the collector both keep their cadence:
/// probes at least `interval` apart, polls at most `gap` apart.
pub open spec fn on_cadence(trace: Seq<Event>, interval: nat, gap: nat) -> bool {
    &&& chronological(trace)
    &&& probes_spaced(trace, interval)
    &&& polls_keep_pace(trace, gap)
}

/// The times of the pushes among the first `n` steps, in order.
spec fn push_times(trace: Seq<Event>, n: nat) -> Seq<nat>
    decreases n,
{
    if n == 0 {
        Seq::empty()
    } else {
        match trace[n - 1].step {
            Step::Push(_) => push_times(trace, (n - 1) as nat).push(trace[n - 1].at),
            Step::Poll => push_times(trace, (n - 1) as nat),
        }
    }
}

/// The position of the last poll among the first `n` steps, or -1 where
/// there is none.
spec fn last_poll(trace: Seq<Event>, n: nat) -> int
    decreases n,
{
    if n == 0 {
        -1
    } else if trace[n - 1].step is Poll {
        n - 1
    } else {
        last_poll(trace, (n - 1) as nat)
    }
}

proof fn lemma_last_poll(trace: Seq<Event>, n: nat)
    ensures
        -1 <= last_poll(trace, n) < n,
        last_poll(trace, n) >= 0 ==> trace[last_poll(trace, n)].step is Poll,
        forall|k: int|
            #![trigger trace[k]]
            last_poll(trace, n) < k < n ==> !(trace[k].step is Poll),
    decreases n,
{
    if n > 0 {
        lemma_last_poll(trace, (n - 1) as nat);
    }
}

/// Every push time is the time of a push of the trace.
proof fn lemma_push_time_is_event(trace: Seq<Event>, n: nat, a: int) -> (e: int)
    requires
        0 <= a < push_times(trace, n).len(),
    ensures
        0 <= e < n,
        trace[e].step is Push,
        trace[e].at == push_times(trace, n)[a],
    decreases n,
{
    if trace[n - 1].step is Push && a == push_times(trace, (n - 1) as nat).len() {
        n - 1
    } else {
        lemma_push_time_is_event(trace, (n - 1) as nat, a)
    }
}

/// Push times inherit the spacing of the pushes.
proof fn lemma_push_times_spaced(trace: Seq<Event>, n: nat, interval: nat, a: int, b: int)
    requires
        n <= trace.len(),
        probes_spaced(trace, interval),
        0 <= a < b < push_times(trace, n).len(),
    ensures
        push_times(trace, n)[a] + interval <= push_times(trace, n)[b],
    decreases n,
{
    let m = (n - 1) as nat;
    if trace[n - 1].step is Push && b == push_times(trace, m).len() {
        let e = lemma_push_time_is_event(trace, m, a);
        assert(elapsed(trace, e, n - 1) >= interval);
    } else {
        lemma_push_times_spaced(trace, m, interval, a, b);
    }
}

/// What holds of the channel after every prefix of a trace on cadence.
spec fn steady(trace: Seq<Event>, n: nat, interval: nat, gap: nat, capacity: nat) -> bool {
    let line = line_after(trace, n, capacity);
    &&& line.lost == 0
    &&& line.seen + line.queued == produced(trace, n)
    &&& push_times(trace, n).len() == produced(trace, n).len()
    &&& line.queued.len() <= 2
    &&& gap < interval ==> line.queued.len() <= 1
    &&& line.queued.len() > 0 && last_poll(trace, n) >= 0 ==> trace[last_poll(trace, n)].at
        <= push_times(trace, n)[line.seen.len() as int]
}

proof fn lemma_steady(trace: Seq<Event>, n: nat, interval: nat, gap: nat, capacity: nat)
    requires
        capacity >= 2,
        interval >= 1,
        gap <= interval,
        on_cadence(trace, interval, gap),
        n <= trace.len(),
    ensures
        steady(trace, n, interval, gap, capacity),
    decreases n,
{
    if n == 0 {
        assert(idle_line().seen + idle_line().queued == Seq::<ProbeOutcome>::empty());
    } else {
        let m = (n - 1) as nat;
        lemma_steady(trace, m, interval, gap, capacity);
        lemma_last_poll(trace, m);
        let before = line_after(trace, m, capacity);
        let after = line_after(trace, n, capacity);
        let times = push_times(trace, m);
        let lam = last_poll(trace, m);
        let head = before.seen.len() as int;
        let now = trace[m as int].at;
        assert(before.seen.len() + before.queued.len() == times.len()) by {
            assert((before.seen + before.queued).len() == produced(trace, m).len());
        }
        // The last poll so far, or the first event where there was none, is
        // at most `gap` before the new event.
        let anchor = if lam >= 0 { lam } else { 0 };
        assert(now <= trace[anchor].at + gap) by {
            if elapsed(trace, anchor, m as int) > gap {
                assert(poll_between(trace, anchor, m as int));
            }
        }
        if before.queued.len() > 0 {
            let e = lemma_push_time_is_event(trace, m, head);
            assert(trace[anchor].at <= times[head]) by {
                if lam < 0 {
                    assert(elapsed(trace, 0, e) >= 0);
                }
            }
        }
        match trace[m as int].step {
            Step::Push(outcome) => {
                if before.queued.len() > 0 {
                    // The head is at most `gap` old, and each outcome behind
                    // it is `interval` younger than the one before.
                    let newest = times.len() - 1;
                    if newest > head {
                        lemma_push_times_spaced(trace, m, interval, head, newest);
                    }
                    let e2 = lemma_push_time_is_event(trace, m, newest);
                    assert(elapsed(trace, e2, m as int) >= interval);
                    assert(before.queued.len() == 1 && gap == interval);
                }
                assert(after.queued == before.queued.push(outcome));
                assert(after.seen + after.queued == (before.seen + before.queued).push(outcome));
                if before.queued.len() == 0 && lam >= 0 {
                    assert(elapsed(trace, lam, m as int) >= 0);
                }
            },
            Step::Poll => {
                if before.queued.len() > 0 {
                    assert(after.seen + after.queued == before.seen + before.queued);
                    if before.queued.len() == 2 {
                        lemma_push_times_spaced(trace, m, interval, head, head + 1);
                    }
                }
            },
        }
    }
}

/// As long as probes are at least one interval apart and polls at most one
/// interval apart, a channel of two or more slots loses nothing: no push
/// finds it full, it never holds more than two outcomes, and what the
/// collector has seen, followed by what is still queued, is exactly what the
/// prober produced, in order, so that every poll of a channel that is not
/// empty hands out the oldest outcome not seen yet. Where polls are strictly
/// closer together than probes, every push finds the channel empty: each
/// outcome is taken out before the next one arrives.
pub proof fn lemma_cadence_loses_nothing(
    trace: Seq<Event>,
    n: nat,
    interval: nat,
    gap: nat,
    capacity: nat,
)
    requires
        capacity >= 2,
        interval >= 1,
        gap <= interval,
        on_cadence(trace, interval, gap),
        n <= trace.len(),
    ensures
        line_after(trace, n, capacity).lost == 0,
        line_after(trace, n, capacity).seen + line_after(trace, n, capacity).queued == produced(
            trace,
            n,
        ),
        line_after(trace, n, capacity).queued.len() <= 2,
        gap < interval ==> line_after(trace, n, capacity).queued.len() <= 1,
        n < trace.len() && trace[n as int].step is Push ==> push_answer(
            line_after(trace, n, capacity),
            capacity,
        ) == Delivery::Sent,
        n < trace.len() && trace[n as int].step is Push && gap < interval ==> line_after(
            trace,
            n,
            capacity,
        ).queued.len() == 0,
        line_after(trace, n, capacity).queued.len() > 0 ==> poll_answer(
            line_after(trace, n, capacity),
        ) == Polled::Outcome(
            produced(trace, n)[line_after(trace, n, capacity).seen.len() as int],
        ),
{
    lemma_steady(trace, n, interval, gap, capacity);
    if n < trace.len() {
        lemma_steady(trace, n + 1, interval, gap, capacity);
    }
    let line = line_after(trace, n, capacity);
    if line.queued.len() > 0 {
        assert((line.seen + line.queued)[line.seen.len() as int] == line.queued[0]);
    }
}

/// A collector that polls at no more than half the probe interval, on a
/// channel of two or more slots, sees every outcome before the next one is
/// produced, and in the order of production.
pub proof fn lemma_half_interval_polling(
    trace: Seq<Event>,
    n: nat,
    interval: nat,
    period: nat,
    capacity: nat,
)
    requires
        capacity >= 2,
        interval >= 1,
        2 * period <= interval,
        on_cadence(trace, interval, period),
        n <= trace.len(),
    ensures
        line_after(trace, n, capacity).lost == 0,
        line_after(trace, n, capacity).queued.len() <= 1,
        line_after(trace, n, capacity).seen + line_after(trace, n, capacity).queued == produced(
            trace,
            n,
        ),
{
    lemma_cadence_loses_nothing(trace, n, interval, period, capacity);
}

/// The period that `receive_interval` picks is exactly half the probe
/// interval, and for an interval of a millisecond or more it is a positive
/// time shorter than the interval.
pub proof fn lemma_collector_period(interval_ms: nat)
    ensures
        2 * collector_period_us(interval_ms) == 1_000 * interval_ms,
        interval_ms >= 1 ==> 1 <= collector_period_us(interval_ms) < 1_000 * interval_ms,
{
}

/// With the period that `receive_interval` picks and the capacity this
/// crate opens its channels with, a pair on cadence loses nothing, and every
/// outcome is taken out before the next one arrives. Times are in
/// microseconds: probes are `interval_ms` milliseconds apart or more.
pub proof fn lemma_receive_interval_loses_nothing(trace: Seq<Event>, n: nat, interval_ms: nat)
    requires
        interval_ms >= 1,
        on_cadence(trace, 1_000 * interval_ms, collector_period_us(interval_ms)),
        n <= trace.len(),
    ensures
        line_after(trace, n, RESULT_CHANNEL_CAPACITY as nat).lost == 0,
        line_after(trace, n, RESULT_CHANNEL_CAPACITY as nat).queued.len() <= 1,
        line_after(trace, n, RESULT_CHANNEL_CAPACITY as nat).seen + line_after(
            trace,
            n,
            RESULT_CHANNEL_CAPACITY as nat,
        ).queued == produced(trace, n),
{
    lemma_collector_period(interval_ms);
    lemma_half_interval_polling(
        trace,
        n,
        1_000 * interval_ms,
        collector_period_us(interval_ms),
        RESULT_CHANNEL_CAPACITY as nat,
    );
}

} // verus!
