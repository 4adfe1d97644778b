//! Resolved round-trip outcomes as the correlation store produces them.

use crate::addr::Ipv4Address;
use vstd::prelude::*;

verus! {

/// What resolving one receive attempt yields: a matched round trip, or a
/// timeout.
#[derive(Clone, Copy, Debug, Eq, PartialEq, Structural)]
pub enum PingReceiveResult {
    /// A reply arrived and matched a pending request.
    Data(PingReceiveResultData),
    /// Nothing arrived before the socket's read timeout.
    Timeout,
}

/// One resolved round trip.
#[derive(Clone, Copy, Debug, Eq, PartialEq, Structural)]
pub struct PingReceiveResultData {
    /// How many bytes the reply message held.
    pub package_size: usize,
    /// Who sent the reply.
    pub ip_addr: Ipv4Address,
    /// The time-to-live left in the reply's IP header.
    pub ttl: u8,
    /// The sequence number of the round trip.
    pub sequence_number: u16,
    /// Receive time minus send time, in clock nanoseconds.
    pub ping_duration: u64,
}

} // verus!
