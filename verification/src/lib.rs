//! A user-space ICMP Echo ("ping") engine.
//!
//! The library encodes Echo Request packets, decodes Echo Replies, allocates
//! per-destination sequence numbers, matches every reply back to the request
//! that produced it, and drives one of two socket kinds (an unprivileged
//! datagram ICMP socket or a privileged raw socket) behind a single
//! transport interface.

pub mod addr;
pub mod channel;
pub mod checksum;
pub mod icmpv4;
pub mod ping;
pub mod ping_data_buffer;
pub mod ping_error;
pub mod ping_fox;
pub mod ping_output;
pub mod ping_receive;
pub mod ping_response_data;
pub mod ping_runner;
pub mod ping_runner_v2;
pub mod records;
pub mod sequence_number;
pub mod socket;
pub mod time;
pub mod ttl;

pub use crate::ping_error::{PingError, PingResult};
pub use crate::ping_fox::{
    create, create_with_socket, PingFoxConfig, PingReceiver, PingSender, PingSentToken, SocketType,
};
pub use crate::ping_receive::{PingReceive, PingReceiveData};
