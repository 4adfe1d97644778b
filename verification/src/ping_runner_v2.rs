//! Creation of a sender/receiver pair for round-based pinging: each call to
//! `PingSender::send_ping_to_each_address` covers every configured
//! destination under one shared sequence number.

use crate::addr::Ipv4Address;
use crate::ping_error::PingResult;
use crate::ping_fox::{create_with_socket, PingReceiver, PingSender, SocketType};
use crate::socket::IcmpSocket;
use vstd::prelude::*;

verus! {

/// Evidence that a ping message has been sent: required by the matching
/// `receive_ping` call, so that "receive before send" cannot compile.
/// Carries no data, and cannot be constructed outside this crate.
#[non_exhaustive]
pub struct PingSentEvidence {}

/// The round-based pair's configuration.
pub struct PingRunnerV2Config {
    /// The destinations every round covers, in order.
    pub ips: Vec<Ipv4Address>,
    /// The socket read timeout, in milliseconds.
    pub timeout: u64,
    /// How many send records the channel between sender and receiver holds.
    pub channel_size: usize,
    /// The kind of socket to open.
    pub socket_type: SocketType,
}

/// Opens a socket of the configured kind and wires a sender/receiver pair
/// whose whole rounds cover `config.ips`.
pub fn create(config: &PingRunnerV2Config) -> (r: PingResult<
    (PingSender<IcmpSocket>, PingReceiver<IcmpSocket>),
>)
    ensures
        r matches Ok(pair) ==> {
            &&& pair.0.well_formed()
            &&& pair.0.allocator_map() == Map::<u32, u16>::empty()
            &&& pair.0.round_number() == 1
            &&& pair.0.ips_list() == config.ips@
            &&& pair.1.pending() == Map::<u64, (usize, u64)>::empty()
        },
{
    match IcmpSocket::new(config.socket_type, config.timeout) {
        Err(e) => Err(e.into_ping_error()),
        Ok(socket) => {
            let pair = create_with_socket(socket, config.channel_size, config.ips.clone());
            Ok(pair)
        },
    }
}

} // verus!
