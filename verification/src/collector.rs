//! The collector: drains one prober's channel into the shared counters.

use crate::channel::{try_pull, OutcomeReceiver, Polled};
use crate::metrics::{raise_counter, same_family, TargetCounter};
use crate::outcome::{FailureCause, ProbeOutcome};
use vstd::prelude::*;

verus! {

/// What one tick of the collector came to.
#[derive(Clone, Copy, Debug, PartialEq, Eq, Structural)]
pub enum Tick {
    /// A success was counted. Its latency, in whole milliseconds, is due as a
    /// sample for the target's latency histogram.
    Success { latency_ms: u128 },
    /// A failure was counted.
    Failure { cause: FailureCause },
    /// The channel was empty; nothing was counted.
    Idle,
    /// The prober is gone for good; nothing was counted, and the collector
    /// has to stop.
    Disconnected,
}

impl Tick {
    /// The collector has to stop after this tick.
    pub open spec fn is_final(self) -> bool {
        self is Disconnected
    }

    /// The collector has to stop after this tick.
    pub fn ends_collector(&self) -> (stop: bool)
        ensures
            stop == self.is_final(),
    {
        match self {
            Tick::Disconnected => true,
            _ => false,
        }
    }
}

/// One of the two counters of a target.
#[derive(Clone, Copy, Debug, PartialEq, Eq, Structural)]
pub enum Family {
    /// The counter of probes that brought a reply.
    Success,
    /// The counter of probes that failed or timed out.
    Failure,
}

/// The counter that a look into the channel adds one to, if it adds to any:
/// a success counts as a success, a failure as a failure, and an empty or
/// disconnected channel counts as nothing.
pub open spec fn family_of(polled: Polled) -> Option<Family> {
    match polled {
        Polled::Outcome(ProbeOutcome::Success { .. }) => Some(Family::Success),
        Polled::Outcome(ProbeOutcome::Failure { .. }) => Some(Family::Failure),
        Polled::Empty => None,
        Polled::Disconnected => None,
    }
}

/// The counter that a look into the channel adds one to, if it adds to any.
pub fn counted(polled: Polled) -> (family: Option<Family>)
    ensures
        family == family_of(polled),
{
    match polled {
        Polled::Outcome(ProbeOutcome::Success { .. }) => Some(Family::Success),
        Polled::Outcome(ProbeOutcome::Failure { .. }) => Some(Family::Failure),
        Polled::Empty => None,
        Polled::Disconnected => None,
    }
}

/// The tick that a look into the channel leads to.
pub open spec fn tick_of(polled: Polled) -> Tick {
    match polled {
        Polled::Outcome(ProbeOutcome::Success { latency }) => Tick::Success {
            latency_ms: latency.millis() as u128,
        },
        Polled::Outcome(ProbeOutcome::Failure { cause }) => Tick::Failure { cause },
        Polled::Empty => Tick::Idle,
        Polled::Disconnected => Tick::Disconnected,
    }
}

/// A collector for one target.
pub struct Collector {
    target: String,
    result_rx: OutcomeReceiver,
    success_count: TargetCounter,
    failure_count: TargetCounter,
    period_us: u128,
}

impl Collector {
    /// The target whose outcomes are collected; the label of its counters.
    pub closed spec fn spec_target(&self) -> Seq<char> {
        self.target@
    }

    /// Microseconds between two ticks.
    pub closed spec fn spec_period_us(&self) -> u128 {
        self.period_us
    }

    /// The receiving half of the channel that the collector drains.
    pub closed spec fn spec_receiver(&self) -> OutcomeReceiver {
        self.result_rx
    }

    /// The counter that the collector adds its successes to.
    pub closed spec fn spec_success_count(&self) -> TargetCounter {
        self.success_count
    }

    /// The counter that the collector adds its failures to.
    pub closed spec fn spec_failure_count(&self) -> TargetCounter {
        self.failure_count
    }

    /// The collector counts into families of the same names and labels as
    /// the two counters given.
    pub open spec fn counts_into(&self, success: TargetCounter, failure: TargetCounter) -> bool {
        &&& same_family(self.spec_success_count(), success)
        &&& same_family(self.spec_failure_count(), failure)
    }

    pub(crate) fn new(
        target: String,
        result_rx: OutcomeReceiver,
        success_count: TargetCounter,
        failure_count: TargetCounter,
        period_us: u128,
    ) -> (collector: Collector)
        ensures
            collector.spec_target() == target@,
            collector.spec_receiver() == result_rx,
            collector.spec_success_count() == success_count,
            collector.spec_failure_count() == failure_count,
            collector.spec_period_us() == period_us,
    {
        Collector { target, result_rx, success_count, failure_count, period_us }
    }

    /// The target whose outcomes are collected.
    pub fn target(&self) -> (target: &String)
        ensures
            target@ == self.spec_target(),
    {
        &self.target
    }

    /// Microseconds between two ticks.
    pub fn period_us(&self) -> (period: u128)
        ensures
            period == self.spec_period_us(),
    {
        self.period_us
    }

    /// Folds one look into the channel into the counters: the counter that
    /// `counted` picks, if it picks one, rises by one for this target. The
    /// tick of a success carries the round trip's whole milliseconds.
    pub fn record(&self, polled: Polled) -> (tick: Tick)
        ensures
            tick == tick_of(polled),
            tick.is_final() <==> polled is Disconnected,
            polled matches Polled::Outcome(ProbeOutcome::Success { latency }) ==> (tick matches Tick::Success {
                latency_ms,
            } && latency_ms == latency.millis()),
    {
        match counted(polled) {
            Some(Family::Success) => raise_counter(&self.success_count, self.target.as_str(), 1),
            Some(Family::Failure) => raise_counter(&self.failure_count, self.target.as_str(), 1),
            None => {},
        }
        match polled {
            Polled::Outcome(ProbeOutcome::Success { latency }) => Tick::Success {
                latency_ms: latency.as_millis(),
            },
            Polled::Outcome(ProbeOutcome::Failure { cause }) => Tick::Failure { cause },
            Polled::Empty => Tick::Idle,
            Polled::Disconnected => Tick::Disconnected,
        }
    }

    /// One tick: looks into the channel without waiting and records what is
    /// there. What is there is up to the prober at the other end, so the tick
    /// is what `record` makes of some finding, and the collector keeps its
    /// target, its period and its counters.
    pub fn tick(&mut self) -> (tick: Tick)
        ensures
            exists|polled: Polled| tick == #[trigger] tick_of(polled),
            final(self).spec_target() == old(self).spec_target(),
            final(self).spec_period_us() == old(self).spec_period_us(),
            final(self).spec_success_count() == old(self).spec_success_count(),
            final(self).spec_failure_count() == old(self).spec_failure_count(),
    {
        let polled = try_pull(&mut self.result_rx);
        self.record(polled)
    }
}

} // verus!
