//! The synchronous send/receive façade.
//!
//! A `PingSender` and a `PingReceiver` share one Echo engine (and so one
//! socket and one clock) through a reference-counted handle; the sender
//! queues a send record for every transmitted request on a bounded channel,
//! and the receiver drains those records into its correlation store before
//! resolving each reply.

use crate::addr::Ipv4Address;
use crate::channel::{create_sync_channel, SyncSender};
use crate::icmpv4::{IcmpV4, ReceiveAttempt};
use crate::ping_data_buffer::PingDataBuffer;
use crate::ping_error::{PingError, PingResult};
use crate::ping_output::PingOutputData;
use crate::ping_receive::{PingReceive, PingReceiveData};
use crate::records::{PingReceiveRecord, PingSendRecord};
use crate::sequence_number::{spec_next_sequence, SequenceAllocator, SequenceNumber};
use crate::socket::{IcmpSocket, TSocket};
use std::sync::Arc;
use vstd::prelude::*;

verus! {

/// Which kind of socket the engine talks through.
///
/// The kind also decides whether elevated privileges are needed.
#[derive(Clone, Copy, Debug, Eq, PartialEq, Structural)]
pub enum SocketType {
    /// A datagram socket; usable without elevated privileges.
    DGRAM,
    /// A raw socket; needs elevated privileges.
    RAW,
}

/// Evidence that a ping message has been sent: required by the matching
/// receive call, so that "receive before send" cannot compile.  Carries no
/// data, and cannot be constructed outside this crate.
#[non_exhaustive]
pub struct PingSentToken {}

/// The engine's configuration.
pub struct PingFoxConfig {
    /// The kind of socket to open.
    pub socket_type: SocketType,
    /// The socket read timeout, in milliseconds.
    pub timeout: u64,
    /// How many send records the channel between sender and receiver holds.
    pub channel_size: usize,
}

/// Relies on `std::sync::Arc::clone`: another handle to the same shared
/// value.
#[verifier::external_body]
fn arc_clone<T>(arc: &Arc<T>) -> (r: Arc<T>)
    ensures
        r == *arc,
{
    Arc::clone(arc)
}

/// The sending half: allocates sequence numbers, encodes and transmits Echo
/// Requests, and records every send for the receiving half to correlate.
pub struct PingSender<S> {
    icmpv4: Arc<IcmpV4<S>>,
    ping_sent_record_tx: SyncSender,
    sequence_numbers: SequenceAllocator,
    ips: Vec<Ipv4Address>,
    round_sequence_number: SequenceNumber,
}

impl<S: TSocket> PingSender<S> {
    /// The per-destination counters, as the allocator keeps them.
    pub closed spec fn allocator_map(&self) -> Map<u32, u16> {
        self.sequence_numbers.counters_map()
    }

    /// The sequence number the next whole round will carry.
    pub closed spec fn round_number(&self) -> u16 {
        self.round_sequence_number.0
    }

    /// The destinations a whole round covers, in order.
    pub closed spec fn ips_list(&self) -> Seq<Ipv4Address> {
        self.ips@
    }

    /// The engine payload is sized right, the allocator holds no zero, and
    /// the round number is never zero.
    pub closed spec fn well_formed(&self) -> bool {
        &&& (*self.icmpv4).well_formed()
        &&& self.sequence_numbers.well_formed()
        &&& self.round_sequence_number.0 != 0
    }

    /// A fresh sender over a shared engine: counters empty, round number at
    /// the start value, covering `ips` on whole rounds.
    pub fn new(icmpv4: Arc<IcmpV4<S>>, ping_sent_record_tx: SyncSender, ips: Vec<Ipv4Address>) -> (r:
        PingSender<S>)
        requires
            (*icmpv4).well_formed(),
        ensures
            r.well_formed(),
            r.allocator_map() == Map::<u32, u16>::empty(),
            r.round_number() == 1,
            r.ips_list() == ips@,
    {
        PingSender {
            icmpv4,
            ping_sent_record_tx,
            sequence_numbers: SequenceAllocator::new(),
            ips,
            round_sequence_number: SequenceNumber::start_value(),
        }
    }

    /// Sends one Echo Request carrying `sequence_number` to `ip` and queues
    /// its send record for the receiving half; nothing is queued when the
    /// send fails.
    pub fn send_one(&self, ip: Ipv4Address, sequence_number: SequenceNumber) -> (r: PingResult<()>)
        requires
            self.well_formed(),
    {
        match (*self.icmpv4).send_to(ip, sequence_number) {
            Err(e) => Err(e),
            Ok((payload_size, ip_addr, seqn, send_time)) => {
                let record = PingSendRecord { payload_size, ip_addr, sequence_number: seqn, send_time };
                match self.ping_sent_record_tx.send(record) {
                    Ok(()) => Ok(()),
                    Err(_) => Err(
                        PingError { message: "internal send-record channel closed".to_owned() },
                    ),
                }
            },
        }
    }

    /// Sends one Echo Request to `ip` under `ip`'s next sequence number —
    /// `1` the first time, then always the successor of the last, wrapping
    /// `65535 -> 1` — and returns the token that the matching receive call
    /// demands.  The counter advances whether or not the send succeeds, so a
    /// failed attempt's number is never reused.
    pub fn send_to(&mut self, ip: Ipv4Address) -> (r: PingResult<PingSentToken>)
        requires
            old(self).well_formed(),
        ensures
            final(self).well_formed(),
            final(self).allocator_map() == old(self).allocator_map().insert(
                ip.spec_key_u32(),
                if old(self).allocator_map().dom().contains(ip.spec_key_u32()) {
                    spec_next_sequence(old(self).allocator_map()[ip.spec_key_u32()])
                } else {
                    1u16
                },
            ),
            final(self).round_number() == old(self).round_number(),
            final(self).ips_list() == old(self).ips_list(),
    {
        let sequence_number = self.sequence_numbers.next(ip);
        match self.send_one(ip, sequence_number) {
            Ok(()) => Ok(PingSentToken {}),
            Err(e) => Err(e),
        }
    }

    /// One round: sends one Echo Request to every configured destination,
    /// all sharing this round's sequence number, and advances the round
    /// number — so two consecutive rounds use `N` then `N + 1` (wrapped past
    /// `65535`).  On the first send failure the error is returned at once;
    /// requests already on the wire are not undone.
    pub fn send_ping_to_each_address(&mut self) -> (r: PingResult<Vec<PingSentToken>>)
        requires
            old(self).well_formed(),
        ensures
            final(self).well_formed(),
            final(self).round_number() == spec_next_sequence(old(self).round_number()),
            final(self).allocator_map() == old(self).allocator_map(),
            final(self).ips_list() == old(self).ips_list(),
            r matches Ok(tokens) ==> tokens@.len() == old(self).ips_list().len(),
    {
        let sequence_number = self.round_sequence_number;
        self.round_sequence_number = self.round_sequence_number.next();
        let mut result: Vec<PingSentToken> = Vec::new();
        let mut i: usize = 0;
        while i < self.ips.len()
            invariant
                i <= self.ips@.len(),
                result@.len() == i,
                self.well_formed(),
                self.allocator_map() == old(self).allocator_map(),
                self.round_number() == spec_next_sequence(old(self).round_number()),
                self.ips_list() == old(self).ips_list(),
            decreases self.ips@.len() - i,
        {
            let ip = self.ips[i];
            match self.send_one(ip, sequence_number) {
                Err(e) => {
                    return Err(e);
                },
                Ok(()) => {
                    result.push(PingSentToken {});
                },
            }
            i = i + 1;
        }
        Ok(result)
    }
}

/// The receiving half: reads replies off the shared engine and resolves
/// each against the correlation store.
pub struct PingReceiver<S> {
    icmpv4: Arc<IcmpV4<S>>,
    ping_data_buffer: PingDataBuffer,
}

impl<S: TSocket> PingReceiver<S> {
    /// The pending correlation table of the receiver's store.
    pub closed spec fn pending(&self) -> Map<u64, (usize, u64)> {
        self.ping_data_buffer.pending()
    }

    /// A fresh receiver over a shared engine and a correlation store.
    pub fn new(icmpv4: Arc<IcmpV4<S>>, ping_data_buffer: PingDataBuffer) -> (r: PingReceiver<S>)
        ensures
            r.pending() == ping_data_buffer.pending(),
    {
        PingReceiver { icmpv4, ping_data_buffer }
    }

    /// One raw receive attempt: `Timeout` when nothing arrived within the
    /// socket's read timeout, the decoded reply otherwise.  The token only
    /// proves a send happened first; its identity plays no part.
    pub fn receive_aux(&self, token: PingSentToken) -> (r: PingResult<PingReceiveRecord>) {
        let _ = token;
        match (*self.icmpv4).try_receive() {
            Ok(None) => Ok(PingReceiveRecord::Timeout),
            Err(e) => Err(e),
            Ok(Some(data)) => Ok(PingReceiveRecord::Data(data)),
        }
    }

    /// Blocks up to the configured timeout for one Echo Reply.  A timeout is
    /// the first-class outcome `PingReceive::Timeout`.  A reply is resolved
    /// against the correlation store: matched, it comes back as
    /// `PingReceive::Data` with its round-trip duration and its store entry
    /// removed; unmatched, it is a distinct error — separate from a timeout
    /// — and the store keeps every entry.
    pub fn receive(&mut self, token: PingSentToken) -> (r: PingResult<PingReceive>)
        ensures
            r matches Ok(PingReceive::Timeout) ==> final(self).pending() == old(self).pending(),
    {
        match self.receive_aux(token) {
            Err(e) => Err(e),
            Ok(PingReceiveRecord::Timeout) => Ok(PingReceive::Timeout),
            Ok(PingReceiveRecord::Data(data)) => {
                let _ = self.ping_data_buffer.process_send_events();
                match self.ping_data_buffer.process_receive_event(&data) {
                    Err(_) => Err(
                        PingError {
                            message: "could not find matching data in send-events buffer".to_owned(
                            ),
                        },
                    ),
                    Ok(out) => Ok(
                        PingReceive::Data(
                            PingReceiveData {
                                package_size: out.package_size,
                                ip_addr: out.ip_addr,
                                ttl: out.ttl,
                                sequence_number: out.sequence_number,
                                ping_duration: out.ping_duration,
                            },
                        ),
                    ),
                }
            },
        }
    }

    /// One step of the continuous receive loop.  `Ok(Some(out))` is one
    /// resolved round trip; `Ok(None)` says there is nothing to report — the
    /// timeout elapsed, or a malformed or unmatched reply arrived, each a
    /// non-fatal event the loop goes on after; an error is an unrecoverable
    /// socket failure, on which the loop terminates.
    pub fn receive_loop_step(&mut self, token: PingSentToken) -> (r: PingResult<
        Option<PingOutputData>,
    >) {
        let _ = token;
        match (*self.icmpv4).try_receive_attempt() {
            Err(e) => Err(e),
            Ok(ReceiveAttempt::Nothing) => Ok(None),
            Ok(ReceiveAttempt::Malformed) => Ok(None),
            Ok(ReceiveAttempt::Reply(data)) => {
                let _ = self.ping_data_buffer.process_send_events();
                match self.ping_data_buffer.process_receive_event(&data) {
                    Err(_) => Ok(None),
                    Ok(out) => Ok(
                        Some(
                            PingOutputData {
                                package_size: out.package_size,
                                ip_addr: out.ip_addr,
                                ttl: out.ttl,
                                sequence_number: out.sequence_number,
                                ping_duration: out.ping_duration,
                            },
                        ),
                    ),
                }
            },
        }
    }

    /// Like `receive`, shaped for the round-based runner: a timeout becomes
    /// `None` instead of a distinct variant.
    pub fn receive_ping(&mut self, token: PingSentToken) -> (r: PingResult<
        Option<PingOutputData>,
    >)
        ensures
            r matches Ok(None) ==> final(self).pending() == old(self).pending(),
    {
        let _ = token;
        match (*self.icmpv4).try_receive() {
            Err(e) => Err(e),
            Ok(None) => Ok(None),
            Ok(Some(data)) => {
                let _ = self.ping_data_buffer.process_send_events();
                match self.ping_data_buffer.process_receive_event(&data) {
                    Err(_) => Err(
                        PingError {
                            message: "could not find matching data in send-events buffer".to_owned(
                            ),
                        },
                    ),
                    Ok(out) => Ok(
                        Some(
                            PingOutputData {
                                package_size: out.package_size,
                                ip_addr: out.ip_addr,
                                ttl: out.ttl,
                                sequence_number: out.sequence_number,
                                ping_duration: out.ping_duration,
                            },
                        ),
                    ),
                }
            },
        }
    }
}

/// Wires a connected sender/receiver pair over `socket`: one shared engine,
/// one bounded send-record channel of `channel_size`, an empty correlation
/// store, counters at their start values, and whole rounds covering `ips`.
pub fn create_with_socket<S: TSocket>(socket: S, channel_size: usize, ips: Vec<Ipv4Address>) -> (r:
    (PingSender<S>, PingReceiver<S>))
    ensures
        r.0.well_formed(),
        r.0.allocator_map() == Map::<u32, u16>::empty(),
        r.0.round_number() == 1,
        r.0.ips_list() == ips@,
        r.1.pending() == Map::<u64, (usize, u64)>::empty(),
{
    let icmpv4 = Arc::new(IcmpV4::new(socket));
    let (send_record_tx, send_record_rx) = create_sync_channel(channel_size);
    let ping_data_buffer = PingDataBuffer::new(send_record_rx, channel_size);
    let receiver = PingReceiver::new(arc_clone(&icmpv4), ping_data_buffer);
    let sender = PingSender::new(icmpv4, send_record_tx, ips);
    (sender, receiver)
}

/// The principal entry point: opens a socket of the configured kind with
/// the configured timeout and wires a sender/receiver pair over it.
pub fn create(config: &PingFoxConfig) -> (r: PingResult<
    (PingSender<IcmpSocket>, PingReceiver<IcmpSocket>),
>)
    ensures
        r matches Ok(pair) ==> {
            &&& pair.0.well_formed()
            &&& pair.0.allocator_map() == Map::<u32, u16>::empty()
            &&& pair.0.round_number() == 1
            &&& pair.0.ips_list() == Seq::<Ipv4Address>::empty()
            &&& pair.1.pending() == Map::<u64, (usize, u64)>::empty()
        },
{
    match IcmpSocket::new(config.socket_type, config.timeout) {
        Err(e) => Err(e.into_ping_error()),
        Ok(socket) => {
            let pair = create_with_socket(socket, config.channel_size, Vec::new());
            Ok(pair)
        },
    }
}

} // verus!
