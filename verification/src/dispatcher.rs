//! The prober: one target, probed on a fixed interval.

use crate::address::{address_of, parse_address, Address};
use crate::cadence::RESULT_CHANNEL_CAPACITY;
use crate::channel::{
    open_channel, slots_of, try_push, Delivery, OutcomeReceiver, OutcomeSender,
};
use crate::error::{ChannelError, SetupError};
use crate::outcome::ProbeOutcome;
use vstd::prelude::*;

verus! {

/// The sequence number of every echo request. Probes are told apart by their
/// timing alone, so one number serves them all.
pub const ECHO_SEQUENCE: u16 = 0;

/// A configured target and the ICMP transport that was opened for it, or the
/// reason why none could be opened.
pub struct Endpoint<T> {
    pub target: String,
    pub transport: Result<T, String>,
}

/// Why no prober can be made for an endpoint, if there is a reason: its
/// target is no IP address literal, or else it has no transport.
pub open spec fn endpoint_fault<T>(endpoint: Endpoint<T>) -> Option<SetupError> {
    if address_of(endpoint.target@) is None {
        Some(SetupError::AddressParse { target: endpoint.target })
    } else if endpoint.transport is Err {
        Some(
            SetupError::SocketInit {
                target: endpoint.target,
                reason: endpoint.transport->Err_0,
            },
        )
    } else {
        None
    }
}

/// What the prober makes of the channel's answer to a push: anything but a
/// queued outcome ends it.
pub open spec fn delivery_verdict(delivery: Delivery) -> Result<(), ChannelError> {
    match delivery {
        Delivery::Sent => Ok(()),
        Delivery::Full => Err(ChannelError::Full),
        Delivery::Closed => Err(ChannelError::Closed),
    }
}

/// Calls `rand::random` for a 16-bit identifier. Any value may come back.
#[verifier::external_body]
fn fresh_identifier() -> (identifier: u16) {
    rand::random()
}

/// A prober for one target. `T` is the handle of the ICMP transport; the
/// prober carries it for the loop that sends the echo requests.
pub struct Dispatcher<T> {
    target: String,
    address: Address,
    transport: T,
    identifier: u16,
    result_tx: OutcomeSender,
    ping_interval_ms: u64,
}

impl<T> Dispatcher<T> {
    /// The target as configured; it labels the target's metrics.
    pub closed spec fn spec_target(&self) -> Seq<char> {
        self.target@
    }

    /// The address that probes go to.
    pub closed spec fn spec_address(&self) -> Address {
        self.address
    }

    /// The transport that probes go through.
    pub closed spec fn spec_transport(&self) -> T {
        self.transport
    }

    /// The identifier that the echo requests carry.
    pub closed spec fn spec_identifier(&self) -> u16 {
        self.identifier
    }

    /// Milliseconds between two probes.
    pub closed spec fn spec_ping_interval_ms(&self) -> u64 {
        self.ping_interval_ms
    }

    /// The number of slots of the channel that outcomes are reported through.
    pub closed spec fn spec_slots(&self) -> nat {
        slots_of(self.result_tx)
    }

    /// The prober is the one made for `endpoint` with this interval, and its
    /// channel has the slots that every result channel has.
    pub open spec fn made_for(&self, endpoint: Endpoint<T>, ping_interval_ms: u64) -> bool {
        &&& self.spec_target() == endpoint.target@
        &&& address_of(endpoint.target@) == Some(self.spec_address())
        &&& endpoint.transport == Ok::<T, String>(self.spec_transport())
        &&& self.spec_ping_interval_ms() == ping_interval_ms
        &&& self.spec_slots() == RESULT_CHANNEL_CAPACITY
    }

    /// Makes the prober for an endpoint, and the receiving half of its result
    /// channel. Fails, in this order, where the target is no IP address
    /// literal and where it has no transport.
    pub fn new(endpoint: Endpoint<T>, ping_interval_ms: u64) -> (res: Result<
        (Dispatcher<T>, OutcomeReceiver),
        SetupError,
    >)
        ensures
            res is Ok <==> endpoint_fault(endpoint) is None,
            res matches Ok(pair) ==> pair.0.made_for(endpoint, ping_interval_ms),
            res matches Err(e) ==> endpoint_fault(endpoint) == Some(e),
    {
        let Endpoint { target, transport } = endpoint;
        let address = match parse_address(target.as_str()) {
            Some(address) => address,
            None => {
                return Err(SetupError::AddressParse { target });
            },
        };
        let transport = match transport {
            Ok(transport) => transport,
            Err(reason) => {
                return Err(SetupError::SocketInit { target, reason });
            },
        };
        let identifier = fresh_identifier();
        let (result_tx, result_rx) = open_channel(RESULT_CHANNEL_CAPACITY);
        Ok(
            (
                Dispatcher { target, address, transport, identifier, result_tx, ping_interval_ms },
                result_rx,
            ),
        )
    }

    /// The target as configured.
    pub fn target(&self) -> (target: &String)
        ensures
            target@ == self.spec_target(),
    {
        &self.target
    }

    /// The address that probes go to.
    pub fn address(&self) -> (address: Address)
        ensures
            address == self.spec_address(),
    {
        self.address
    }

    /// The transport that probes go through.
    pub fn transport(&self) -> (transport: &T)
        ensures
            *transport == self.spec_transport(),
    {
        &self.transport
    }

    /// The identifier that the echo requests carry.
    pub fn identifier(&self) -> (identifier: u16)
        ensures
            identifier == self.spec_identifier(),
    {
        self.identifier
    }

    /// Milliseconds between two probes.
    pub fn ping_interval_ms(&self) -> (interval: u64)
        ensures
            interval == self.spec_ping_interval_ms(),
    {
        self.ping_interval_ms
    }

    /// Hands one outcome to the channel without waiting, and says whether
    /// the prober may go on. Which answer the channel gives is up to the
    /// collector at the other end, so the result is what `verdict` makes of
    /// some answer.
    pub fn report(&self, outcome: ProbeOutcome) -> (res: Result<(), ChannelError>)
        ensures
            exists|delivery: Delivery| res == #[trigger] delivery_verdict(delivery),
    {
        verdict(try_push(&self.result_tx, outcome))
    }
}

/// What the prober makes of the channel's answer to a push.
pub fn verdict(delivery: Delivery) -> (res: Result<(), ChannelError>)
    ensures
        res == delivery_verdict(delivery),
        res is Ok <==> delivery is Sent,
{
    match delivery {
        Delivery::Sent => Ok(()),
        Delivery::Full => Err(ChannelError::Full),
        Delivery::Closed => Err(ChannelError::Closed),
    }
}

} // verus!
