//! The sender: every target wired to a prober and a collector.

use crate::cadence::{collector_period_us, receive_interval};
use crate::channel::OutcomeReceiver;
use crate::collector::Collector;
use crate::dispatcher::{endpoint_fault, Dispatcher, Endpoint};
use crate::error::SetupError;
use crate::metrics::{
    counts_as, raise_counter, share_counter, Instruments, TargetCounter, FAILURE_COUNT_NAME,
    SUCCESS_COUNT_NAME,
};
use prometheus::Registry;
use vstd::prelude::*;

verus! {

/// `error` is the fault of the first endpoint that has one.
pub open spec fn first_fault<T>(targets: Seq<Endpoint<T>>, error: SetupError) -> bool {
    exists|i: int|
        #![trigger targets[i]]
        0 <= i < targets.len() && endpoint_fault(targets[i]) == Some(error) && forall|j: int|
            #![trigger targets[j]]
            0 <= j < i ==> endpoint_fault(targets[j]) is None
}

/// No endpoint has a fault.
pub open spec fn all_sound<T>(targets: Seq<Endpoint<T>>) -> bool {
    forall|i: int|
        #![trigger targets[i]]
        0 <= i < targets.len() ==> endpoint_fault(targets[i]) is None
}

/// Sends pings to a fixed list of targets: one prober per target, each with
/// the receiving half of its result channel, and the counters they share.
pub struct PingSender<T> {
    dispatchers: Vec<(Dispatcher<T>, OutcomeReceiver)>,
    success_count: TargetCounter,
    failure_count: TargetCounter,
}

/// The two loops of one target, ready to be started.
pub struct PingTask<T> {
    pub dispatcher: Dispatcher<T>,
    pub collector: Collector,
}

impl<T> PingSender<T> {
    /// The probers, in the order of the targets.
    pub closed spec fn probers(&self) -> Seq<Dispatcher<T>> {
        Seq::new(self.dispatchers@.len(), |i: int| self.dispatchers@[i].0)
    }

    /// The receiving halves of the probers' channels, in the order of the
    /// targets.
    pub closed spec fn receivers(&self) -> Seq<OutcomeReceiver> {
        Seq::new(self.dispatchers@.len(), |i: int| self.dispatchers@[i].1)
    }

    /// The counter of probes that brought a reply.
    pub closed spec fn spec_success_count(&self) -> TargetCounter {
        self.success_count
    }

    /// The counter of probes that failed or timed out.
    pub closed spec fn spec_failure_count(&self) -> TargetCounter {
        self.failure_count
    }

    /// The sender's counters are the families `ping_success_count` and
    /// `ping_failure_count`, each keyed by the label `target`.
    pub open spec fn named(&self) -> bool {
        &&& counts_as(self.spec_success_count(), SUCCESS_COUNT_NAME@)
        &&& counts_as(self.spec_failure_count(), FAILURE_COUNT_NAME@)
    }

    /// The sender has one prober for each of `targets`, in order, each made
    /// for its endpoint with this interval.
    pub open spec fn wired_to(&self, targets: Seq<Endpoint<T>>, ping_interval_ms: u64) -> bool {
        &&& self.probers().len() == targets.len()
        &&& forall|i: int|
            #![trigger targets[i]]
            0 <= i < targets.len() ==> self.probers()[i].made_for(targets[i], ping_interval_ms)
    }

    /// Registers the counters `ping_success_count` and `ping_failure_count`
    /// with `metrics`, then makes one prober per target. Nothing is started. A refusal by the registry comes first;
    /// after that, the first target that is no address literal or has no
    /// transport fails the whole setup.
    pub fn new(targets: Vec<Endpoint<T>>, ping_interval_ms: u64, metrics: &Registry) -> (res:
        Result<PingSender<T>, SetupError>)
        ensures
            match res {
                Ok(sender) => all_sound(targets@) && sender.wired_to(targets@, ping_interval_ms)
                    && sender.named(),
                Err(e) => e.from_registry() || first_fault(targets@, e),
            },
    {
        match Instruments::register(metrics) {
            Ok(instruments) => PingSender::assemble(instruments, targets, ping_interval_ms),
            Err(e) => Err(e),
        }
    }

    /// Makes one prober per target around counters that are registered
    /// already, and keeps those counters. Succeeds exactly where every
    /// target is an address literal and has a transport; otherwise the
    /// first target that fails either decides the error.
    pub fn assemble(
        instruments: Instruments,
        targets: Vec<Endpoint<T>>,
        ping_interval_ms: u64,
    ) -> (res: Result<PingSender<T>, SetupError>)
        ensures
            res is Ok <==> all_sound(targets@),
            res matches Ok(sender) ==> sender.wired_to(targets@, ping_interval_ms),
            res matches Ok(sender) ==> sender.spec_success_count()
                == instruments.spec_success_count() && sender.spec_failure_count()
                == instruments.spec_failure_count(),
            res matches Err(e) ==> first_fault(targets@, e),
    {
        let ghost endpoints = targets@;
        let mut dispatchers: Vec<(Dispatcher<T>, OutcomeReceiver)> = Vec::new();
        for endpoint in it: targets.into_iter()
            invariant
                it.seq() == endpoints,
                dispatchers@.len() == it.index(),
                forall|k: int|
                    #![trigger endpoints[k]]
                    0 <= k < it.index() ==> endpoint_fault(endpoints[k]) is None
                        && dispatchers@[k].0.made_for(endpoints[k], ping_interval_ms),
        {
            match Dispatcher::new(endpoint, ping_interval_ms) {
                Ok(pair) => {
                    dispatchers.push(pair);
                },
                Err(e) => {
                    assert(endpoint_fault(endpoints[it.index() as int]) == Some(e));
                    return Err(e);
                },
            }
        }
        let (success_count, failure_count) = instruments.into_counters();
        Ok(PingSender { dispatchers, success_count, failure_count })
    }

    /// The number of targets.
    pub fn len(&self) -> (n: usize)
        ensures
            n == self.probers().len(),
    {
        self.dispatchers.len()
    }
}

/// Prepares the two loops of every target of the sender: its prober, and a
/// collector that counts into the sender's two families, each into its own,
/// owns the receiving half of the prober's channel and ticks at exactly half
/// the probe interval.
/// Each target's failure counter is brought into being, at zero if it is
/// new, so that a target without failures can be told from one that is not
/// monitored. The loops are returned in the order of the targets; running
/// them is left to the caller.
pub fn ping_targets<T>(sender: PingSender<T>) -> (tasks: Vec<PingTask<T>>)
    ensures
        tasks@.len() == sender.probers().len(),
        forall|i: int|
            #![trigger tasks@[i]]
            0 <= i < tasks@.len() ==> {
                &&& tasks@[i].dispatcher == sender.probers()[i]
                &&& tasks@[i].collector.spec_receiver() == sender.receivers()[i]
                &&& tasks@[i].collector.counts_into(
                    sender.spec_success_count(),
                    sender.spec_failure_count(),
                )
                &&& tasks@[i].collector.spec_target() == sender.probers()[i].spec_target()
                &&& tasks@[i].collector.spec_period_us() == collector_period_us(
                    sender.probers()[i].spec_ping_interval_ms() as nat,
                )
                &&& 2 * tasks@[i].collector.spec_period_us() == 1_000
                    * sender.probers()[i].spec_ping_interval_ms()
            },
{
    let ghost probers = sender.probers();
    let ghost receivers = sender.receivers();
    let ghost success = sender.spec_success_count();
    let ghost failure = sender.spec_failure_count();
    let PingSender { dispatchers, success_count, failure_count } = sender;
    let ghost pairs = dispatchers@;
    let mut tasks: Vec<PingTask<T>> = Vec::new();
    for pair in it: dispatchers.into_iter()
        invariant
            it.seq() == pairs,
            probers.len() == pairs.len(),
            receivers.len() == pairs.len(),
            forall|k: int|
                0 <= k < pairs.len() ==> probers[k] == (#[trigger] pairs[k]).0 && receivers[k]
                    == pairs[k].1,
            success_count == success,
            failure_count == failure,
            tasks@.len() == it.index(),
            forall|k: int|
                #![trigger tasks@[k]]
                0 <= k < it.index() ==> {
                    &&& tasks@[k].dispatcher == probers[k]
                    &&& tasks@[k].collector.spec_receiver() == receivers[k]
                    &&& tasks@[k].collector.counts_into(success, failure)
                    &&& tasks@[k].collector.spec_target() == probers[k].spec_target()
                    &&& tasks@[k].collector.spec_period_us() == collector_period_us(
                        probers[k].spec_ping_interval_ms() as nat,
                    )
                },
    {
        let (dispatcher, result_rx) = pair;
        let period_us = receive_interval(dispatcher.ping_interval_ms());
        let target = dispatcher.target().clone();
        raise_counter(&failure_count, target.as_str(), 0);
        let collector = Collector::new(
            target,
            result_rx,
            share_counter(&success_count),
            share_counter(&failure_count),
            period_us,
        );
        tasks.push(PingTask { dispatcher, collector });
    }
    tasks
}

} // verus!
