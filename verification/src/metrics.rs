//! The counters that collectors write to, kept in a prometheus registry.

use crate::error::SetupError;
use prometheus::Registry;
use vstd::prelude::*;

verus! {

/// Name of the counter of probes that brought a reply.
pub const SUCCESS_COUNT_NAME: &'static str = "ping_success_count";

/// Name of the counter of probes that failed or timed out.
pub const FAILURE_COUNT_NAME: &'static str = "ping_failure_count";

/// The one label that every instrument carries.
pub const TARGET_LABEL: &'static str = "target";

/// Name of the histogram of round-trip times, in milliseconds.
pub const PING_DURATION_NAME: &'static str = "ping_duration_ms";

/// Help text of the success counter.
pub const SUCCESS_COUNT_HELP: &'static str = "Counter of successful pings";

/// Help text of the failure counter.
pub const FAILURE_COUNT_HELP: &'static str = "Counter of failed pings";

/// The prometheus `Registry`, carried through as it is: a handle to a set of
/// instruments that other handles may change at any time.
#[verifier::external_type_specification]
#[verifier::external_body]
pub struct ExRegistry(Registry);

/// The prometheus `Error`, carried from the call that gave it to
/// `metric_fault`.
#[verifier::external_type_specification]
#[verifier::external_body]
pub struct ExMetricError(prometheus::Error);

/// A family of monotonic counters keyed by one label value: a handle to a
/// prometheus `IntCounterVec`, whose builder type has no public path to
/// declare it by. Handles made by `share_counter` count into the same family,
/// from any number of tasks, so nothing is claimed of its contents; its name
/// and its label are fixed.
#[verifier::external_body]
pub struct TargetCounter {
    inner: prometheus::IntCounterVec,
}

/// How the registry refused an instrument.
#[derive(Debug, PartialEq, Eq)]
pub enum MetricFault {
    /// An instrument with the same descriptor is registered already.
    Duplicate,
    /// Any other refusal, with the registry's own words.
    Other(String),
}

/// The name that a family of counters is registered and exposed under: the
/// fully qualified name of the descriptor of the `IntCounterVec`, fixed when
/// the family is made and the same for every handle to it.
pub uninterp spec fn family_name(counter: TargetCounter) -> Seq<char>;

/// The name of the one label that keys a family of counters: the variable
/// label of the descriptor of the `IntCounterVec`, fixed when the family is
/// made and the same for every handle to it.
pub uninterp spec fn family_label(counter: TargetCounter) -> Seq<char>;

/// The counter is a handle to a family of this name, keyed by the target.
pub open spec fn counts_as(counter: TargetCounter, name: Seq<char>) -> bool {
    family_name(counter) == name && family_label(counter) == TARGET_LABEL@
}

/// Both handles are to families of one name and one label.
pub open spec fn same_family(one: TargetCounter, other: TargetCounter) -> bool {
    family_name(one) == family_name(other) && family_label(one) == family_label(other)
}

/// Calls `IntCounterVec::new` with options made by `Opts::new` and one label
/// name. `Opts::new` leaves namespace and subsystem empty, so a family that
/// is made has the name it was asked for, and its one label. Whether it is
/// made is not claimed.
#[verifier::external_body]
pub(crate) fn create_counter(name: &str, help: &str, label: &str) -> (made: Result<
    TargetCounter,
    prometheus::Error,
>)
    ensures
        made matches Ok(counter) ==> family_name(counter) == name@ && family_label(counter)
            == label@,
{
    let made = prometheus::IntCounterVec::new(prometheus::Opts::new(name, help), &[label]);
    made.map(|inner| TargetCounter { inner })
}

/// Calls `Clone::clone` on the `IntCounterVec`: another handle to the same
/// family, so to one of the same name and label.
#[verifier::external_body]
pub(crate) fn share_counter(counter: &TargetCounter) -> (handle: TargetCounter)
    ensures
        family_name(handle) == family_name(*counter),
        family_label(handle) == family_label(*counter),
{
    TargetCounter { inner: counter.inner.clone() }
}

/// Calls `Registry::register` with a handle to the family. The outcome
/// depends on what the registry holds, so nothing is claimed of it.
#[verifier::external_body]
pub(crate) fn enroll_counter(registry: &Registry, counter: &TargetCounter) -> (enrolled: Result<
    (),
    prometheus::Error,
>) {
    registry.register(Box::new(counter.inner.clone()))
}

/// Calls `with_label_values` and `inc_by` on the counter of `target`, which
/// creates that counter at zero where the family does not hold it yet. With
/// one label value for a family of one label name, `with_label_values` does
/// not panic.
#[verifier::external_body]
pub(crate) fn raise_counter(counter: &TargetCounter, target: &str, amount: u64) {
    counter.inner.with_label_values(&[target]).inc_by(amount);
}

/// Tells `prometheus::Error::AlreadyReg` from the other variants, whose
/// text is kept.
#[verifier::external_body]
pub(crate) fn metric_fault(error: prometheus::Error) -> (fault: MetricFault) {
    match error {
        prometheus::Error::AlreadyReg => MetricFault::Duplicate,
        other => MetricFault::Other(other.to_string()),
    }
}

/// Upper bounds of the latency histogram's buckets, in milliseconds.
pub open spec fn latency_bounds() -> Seq<u32> {
    seq![1u32, 5u32, 10u32, 25u32, 50u32, 100u32, 250u32, 500u32, 1000u32, 2500u32]
}

/// Upper bounds of the latency histogram's buckets, in milliseconds, from
/// one millisecond to two and a half seconds, each larger than the one
/// before.
pub fn latency_buckets_ms() -> (bounds: Vec<u32>)
    ensures
        bounds@ == latency_bounds(),
        forall|i: int, j: int| 0 <= i < j < bounds@.len() ==> bounds@[i] < bounds@[j],
{
    let bounds: Vec<u32> = vec![1, 5, 10, 25, 50, 100, 250, 500, 1000, 2500];
    assert(bounds@ =~= latency_bounds());
    bounds
}

/// The setup error that a refusal by the registry becomes.
pub open spec fn fault_error(fault: MetricFault) -> SetupError {
    match fault {
        MetricFault::Duplicate => SetupError::DuplicateMetric,
        MetricFault::Other(reason) => SetupError::MetricRejected { reason },
    }
}

/// The setup error that a refusal by the registry becomes.
pub fn setup_error(fault: MetricFault) -> (error: SetupError)
    ensures
        error == fault_error(fault),
        error.from_registry(),
{
    match fault {
        MetricFault::Duplicate => SetupError::DuplicateMetric,
        MetricFault::Other(reason) => SetupError::MetricRejected { reason },
    }
}

/// The two counters that every collector writes to.
pub struct Instruments {
    success_count: TargetCounter,
    failure_count: TargetCounter,
}

impl Instruments {
    /// The counter of probes that brought a reply.
    pub closed spec fn spec_success_count(&self) -> TargetCounter {
        self.success_count
    }

    /// The counter of probes that failed or timed out.
    pub closed spec fn spec_failure_count(&self) -> TargetCounter {
        self.failure_count
    }

    /// The two counters are the families `ping_success_count` and
    /// `ping_failure_count`, each keyed by the label `target`.
    pub open spec fn named(&self) -> bool {
        &&& counts_as(self.spec_success_count(), SUCCESS_COUNT_NAME@)
        &&& counts_as(self.spec_failure_count(), FAILURE_COUNT_NAME@)
    }

    /// Makes the success counter and the failure counter, under their names
    /// and keyed by target, and registers them, in this order, stopping at
    /// the first refusal. Whether the registry takes them depends on what it
    /// holds; a refusal always comes back as an error from the registry.
    pub fn register(metrics: &Registry) -> (res: Result<Instruments, SetupError>)
        ensures
            res matches Ok(instruments) ==> instruments.named(),
            res matches Err(e) ==> e.from_registry(),
    {
        let success_count = match create_counter(
            SUCCESS_COUNT_NAME,
            SUCCESS_COUNT_HELP,
            TARGET_LABEL,
        ) {
            Ok(counter) => counter,
            Err(e) => {
                return Err(setup_error(metric_fault(e)));
            },
        };
        let failure_count = match create_counter(
            FAILURE_COUNT_NAME,
            FAILURE_COUNT_HELP,
            TARGET_LABEL,
        ) {
            Ok(counter) => counter,
            Err(e) => {
                return Err(setup_error(metric_fault(e)));
            },
        };
        match enroll_counter(metrics, &success_count) {
            Ok(()) => {},
            Err(e) => {
                return Err(setup_error(metric_fault(e)));
            },
        }
        match enroll_counter(metrics, &failure_count) {
            Ok(()) => {},
            Err(e) => {
                return Err(setup_error(metric_fault(e)));
            },
        }
        Ok(Instruments { success_count, failure_count })
    }

    /// The success counter and the failure counter, in this order.
    pub(crate) fn into_counters(self) -> (counters: (TargetCounter, TargetCounter))
        ensures
            counters.0 == self.spec_success_count(),
            counters.1 == self.spec_failure_count(),
    {
        (self.success_count, self.failure_count)
    }
}

} // verus!
