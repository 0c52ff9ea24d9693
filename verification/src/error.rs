//! Why a sender could not be set up, and why a prober has to stop.

use vstd::prelude::*;

verus! {

/// A failure while the sender is put together. Nothing has been started when
/// one of these is returned.
#[derive(Debug, PartialEq, Eq)]
pub enum SetupError {
    /// The registry already holds an instrument of the same name.
    DuplicateMetric,
    /// The registry refused an instrument for another reason.
    MetricRejected { reason: String },
    /// The target is not an IP address literal.
    AddressParse { target: String },
    /// The ICMP transport for the target could not be created.
    SocketInit { target: String, reason: String },
}

impl SetupError {
    /// The error comes from the metrics registry.
    pub open spec fn from_registry(self) -> bool {
        self is DuplicateMetric || self is MetricRejected
    }
}

/// A push that the channel did not take. The prober that meets one stops.
#[derive(Clone, Copy, Debug, PartialEq, Eq, Structural)]
pub enum ChannelError {
    /// Every slot of the channel was taken: the collector has fallen behind.
    Full,
    /// The collector's half of the channel is gone.
    Closed,
}

} // verus!
