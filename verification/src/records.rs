//! The records the sender and the receiver exchange.
//!
//! Timestamps are nanoseconds read from one shared monotonic clock, so a
//! round-trip duration is the plain difference of two of them.

use crate::addr::Ipv4Address;
use crate::sequence_number::SequenceNumber;
use crate::ttl::Ttl;
use vstd::prelude::*;

verus! {

/// What the sender hands the correlation store for each transmitted Echo
/// Request.
#[derive(Clone, Copy, Debug, Eq, PartialEq, Structural)]
pub struct PingSendRecord {
    /// How many payload bytes the request carried.
    pub payload_size: usize,
    /// The destination the request went to.
    pub ip_addr: Ipv4Address,
    /// The sequence number the request carried.
    pub sequence_number: SequenceNumber,
    /// When the request was written to the socket, in clock nanoseconds.
    pub send_time: u64,
}

/// What one attempt to read the socket produced: nothing within the timeout,
/// or one reply.
#[derive(Clone, Copy, Debug, Eq, PartialEq, Structural)]
pub enum PingReceiveRecord {
    /// Nothing arrived before the socket's read timeout.
    Timeout,
    /// One Echo Reply arrived.
    Data(PingReceiveRecordData),
}

/// One Echo Reply as the transport layer hands it over; consumed immediately
/// by the correlation store, never stored.
#[derive(Clone, Copy, Debug, Eq, PartialEq, Structural)]
pub struct PingReceiveRecordData {
    /// How many bytes the reply message held.
    pub package_size: usize,
    /// Who sent the reply.
    pub ip_addr: Ipv4Address,
    /// The time-to-live left in the reply's IP header.
    pub ttl: Ttl,
    /// The sequence number the reply echoes.
    pub sequence_number: SequenceNumber,
    /// When the reply was read off the socket, in clock nanoseconds.
    pub receive_time: u64,
}

} // verus!
