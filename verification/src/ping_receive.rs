//! What a receive call hands back to the caller.

use crate::addr::Ipv4Address;
use vstd::prelude::*;

verus! {

/// The outcome of one receive call.  A timeout is a first-class outcome,
/// not an error.
#[derive(Clone, Copy, Debug, Eq, PartialEq, Structural)]
pub enum PingReceive {
    /// The data of a received Echo Reply.
    Data(PingReceiveData),
    /// Nothing arrived before the configured timeout.
    Timeout,
}

/// One received Echo Reply, resolved into a round trip.
#[derive(Clone, Copy, Debug, Eq, PartialEq, Structural)]
pub struct PingReceiveData {
    /// The size of the received reply message, in bytes.
    pub package_size: usize,
    /// The address of the host that sent the reply.
    pub ip_addr: Ipv4Address,
    /// The time-to-live of the received reply.
    pub ttl: u8,
    /// The sequence number of the reply.
    pub sequence_number: u16,
    /// The measured time between send and receive, in nanoseconds.
    pub ping_duration: u64,
}

} // verus!
