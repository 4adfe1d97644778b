//! What the continuous runner's output channel carries.

use crate::addr::Ipv4Address;
use vstd::prelude::*;

verus! {

/// One item of the continuous runner's output.
#[derive(Clone, Copy, Debug, Eq, PartialEq, Structural)]
pub enum PingOutput {
    /// One resolved round trip.
    Data(PingOutputData),
    /// The runner is done and nothing more will follow.
    End,
}

/// One resolved round trip, as the continuous runner reports it.
#[derive(Clone, Copy, Debug, Eq, PartialEq, Structural)]
pub struct PingOutputData {
    /// The size of the received reply message, in bytes.
    pub package_size: usize,
    /// The address of the host that sent the reply.
    pub ip_addr: Ipv4Address,
    /// The time-to-live of the received reply.
    pub ttl: u8,
    /// The sequence number of the reply.
    pub sequence_number: u16,
    /// The measured time between send and receive, in nanoseconds.
    pub ping_duration: u64,
}

} // verus!
