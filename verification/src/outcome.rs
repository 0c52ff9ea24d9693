//! What a single probe can report.

use vstd::prelude::*;

verus! {

/// Nanoseconds in one second.
pub const NANOS_PER_SEC: u32 = 1_000_000_000;

/// Nanoseconds in one millisecond.
pub const NANOS_PER_MILLI: u32 = 1_000_000;

/// Milliseconds in one second.
pub const MILLIS_PER_SEC: u128 = 1_000;

/// A round-trip time: whole seconds plus a sub-second part in nanoseconds.
#[derive(Clone, Copy, Debug, PartialEq, Eq, Structural)]
pub struct Latency {
    secs: u64,
    subsec_nanos: u32,
}

impl Latency {
    /// The sub-second part stays below one second.
    pub closed spec fn wf(self) -> bool {
        self.subsec_nanos < NANOS_PER_SEC
    }

    /// Whole seconds of the round trip.
    pub closed spec fn spec_secs(self) -> u64 {
        self.secs
    }

    /// Nanoseconds beyond the whole seconds.
    pub closed spec fn spec_subsec_nanos(self) -> u32 {
        self.subsec_nanos
    }

    /// The round trip in whole milliseconds, rounded down.
    pub open spec fn millis(self) -> nat {
        (self.spec_secs() * 1_000 + self.spec_subsec_nanos() / 1_000_000) as nat
    }

    /// Builds a latency from its two parts. The parts are refused when the
    /// sub-second part holds a whole second or more.
    pub fn from_parts(secs: u64, subsec_nanos: u32) -> (res: Option<Latency>)
        ensures
            res is Some <==> subsec_nanos < NANOS_PER_SEC,
            res matches Some(l) ==> l.wf() && l.spec_secs() == secs && l.spec_subsec_nanos()
                == subsec_nanos,
    {
        if subsec_nanos < NANOS_PER_SEC {
            Some(Latency { secs, subsec_nanos })
        } else {
            None
        }
    }

    /// Whole seconds of the round trip.
    pub fn secs(&self) -> (r: u64)
        ensures
            r == self.spec_secs(),
    {
        self.secs
    }

    /// Nanoseconds beyond the whole seconds.
    pub fn subsec_nanos(&self) -> (r: u32)
        ensures
            r == self.spec_subsec_nanos(),
    {
        self.subsec_nanos
    }

    /// The round trip in whole milliseconds, rounded down.
    pub fn as_millis(&self) -> (ms: u128)
        ensures
            ms == self.millis(),
    {
        let whole: u128 = self.secs as u128 * MILLIS_PER_SEC;
        let part: u32 = self.subsec_nanos / NANOS_PER_MILLI;
        whole + part as u128
    }
}

/// Why a probe brought no reply.
#[derive(Clone, Copy, Debug, PartialEq, Eq, Structural)]
pub enum FailureCause {
    /// No reply arrived within the wait.
    Timeout,
    /// The network reported that the target cannot be reached.
    Unreachable,
    /// The request could not be sent or the reply could not be read.
    Transport,
}

/// The result of one probe cycle.
#[derive(Clone, Copy, Debug, PartialEq, Eq, Structural)]
pub enum ProbeOutcome {
    /// A reply arrived after `latency`.
    Success { latency: Latency },
    /// No usable reply arrived.
    Failure { cause: FailureCause },
}

/// The outcome that a reply stands for: a round-trip time is a success, and
/// whatever kept the reply away is a failure with that cause.
pub open spec fn outcome_of(reply: Result<Latency, FailureCause>) -> ProbeOutcome {
    match reply {
        Ok(latency) => ProbeOutcome::Success { latency },
        Err(cause) => ProbeOutcome::Failure { cause },
    }
}

/// Packages what one echo request came to as the outcome of its probe cycle.
pub fn classify(reply: Result<Latency, FailureCause>) -> (outcome: ProbeOutcome)
    ensures
        outcome == outcome_of(reply),
{
    match reply {
        Ok(latency) => ProbeOutcome::Success { latency },
        Err(cause) => ProbeOutcome::Failure { cause },
    }
}

} // verus!
