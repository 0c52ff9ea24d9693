//! The bounded queue between a prober and its collector.

use crate::outcome::ProbeOutcome;
use tokio::sync::mpsc::error::{TryRecvError, TrySendError};
use tokio::sync::mpsc::{Receiver, Sender};
use vstd::prelude::*;

verus! {

/// The sending half of a tokio `mpsc` channel, carried through as it is.
#[verifier::external_type_specification]
#[verifier::external_body]
#[verifier::reject_recursive_types(T)]
pub struct ExSender<T>(Sender<T>);

/// The receiving half of a tokio `mpsc` channel, carried through as it is.
#[verifier::external_type_specification]
#[verifier::external_body]
#[verifier::reject_recursive_types(T)]
pub struct ExReceiver<T>(Receiver<T>);

/// The sending half of a result channel.
pub type OutcomeSender = Sender<ProbeOutcome>;

/// The receiving half of a result channel.
pub type OutcomeReceiver = Receiver<ProbeOutcome>;

/// The largest capacity this crate opens a channel with. It lies within the
/// permit limit of the queue on every platform.
pub const MAX_CAPACITY: usize = 0x1FFF_FFFF;

/// What became of an outcome handed to the channel.
#[derive(Clone, Copy, Debug, PartialEq, Eq, Structural)]
pub enum Delivery {
    /// The outcome is queued.
    Sent,
    /// Every slot was taken; the outcome is not queued.
    Full,
    /// The receiving half is gone; the outcome is not queued.
    Closed,
}

/// What one look into the channel found.
#[derive(Clone, Copy, Debug, PartialEq, Eq, Structural)]
pub enum Polled {
    /// The oldest queued outcome, now taken out.
    Outcome(ProbeOutcome),
    /// Nothing is queued, and the sending half is still there.
    Empty,
    /// Nothing is queued, and the sending half is gone for good.
    Disconnected,
}

/// The number of slots that the channel of a sending half was opened with:
/// what `Sender::max_capacity` reads. It is fixed when the channel is made
/// and says nothing of how many slots are taken.
pub uninterp spec fn slots_of(tx: OutcomeSender) -> nat;

/// Calls `tokio::sync::mpsc::channel`, which panics on a capacity of zero or
/// above its permit limit (the largest `usize` shifted right by three bits).
/// The channel has as many slots as were asked for; nothing is claimed of
/// what it holds.
#[verifier::external_body]
pub(crate) fn open_channel(capacity: usize) -> (halves: (OutcomeSender, OutcomeReceiver))
    requires
        0 < capacity <= MAX_CAPACITY,
    ensures
        slots_of(halves.0) == capacity,
{
    tokio::sync::mpsc::channel(capacity)
}

/// Calls `Sender::try_send`, which never waits. Whether a slot is free
/// depends on the other half, so nothing is claimed of the answer.
#[verifier::external_body]
pub(crate) fn try_push(tx: &OutcomeSender, outcome: ProbeOutcome) -> (delivery: Delivery) {
    match tx.try_send(outcome) {
        Ok(()) => Delivery::Sent,
        Err(TrySendError::Full(_)) => Delivery::Full,
        Err(TrySendError::Closed(_)) => Delivery::Closed,
    }
}

/// Calls `Receiver::try_recv`, which never waits for a new outcome. What is
/// queued depends on the other half, so nothing is claimed of the answer.
#[verifier::external_body]
pub(crate) fn try_pull(rx: &mut OutcomeReceiver) -> (polled: Polled) {
    match rx.try_recv() {
        Ok(outcome) => Polled::Outcome(outcome),
        Err(TryRecvError::Empty) => Polled::Empty,
        Err(TryRecvError::Disconnected) => Polled::Disconnected,
    }
}

} // verus!
