//! The ICMPv4 Echo codec (RFC 792).
//!
//! An Echo message is `type(1) code(1) checksum(2) identifier(2)
//! sequence_number(2) payload(N)`, all multi-byte fields big-endian.  This
//! engine always sends identifier `0`, so two concurrent engines on one host
//! pinging the same destination with colliding sequence numbers cannot be
//! told apart; that limitation is kept deliberately.

use crate::addr::Ipv4Address;
use crate::checksum::{
    checksum_input_sum, internet_checksum, lemma_fold16_properties,
    lemma_recomputed_checksum_is_zero, lemma_sum_words_nonneg, spec_checksum, word_count,
};
use crate::ping_error::{PingError, PingResult};
use crate::records::PingReceiveRecordData;
use crate::sequence_number::SequenceNumber;
use crate::socket::{zeroed_buffer, SocketError, TSocket};
use crate::time::{elapsed_nanos, instant_now};
use rand::Rng;
use vstd::arithmetic::div_mod::{lemma_fundamental_div_mod, lemma_mod_bound};
use vstd::prelude::*;

verus! {

/// Number of random payload bytes every Echo Request carries.
pub const PAYLOAD_SIZE: usize = 56;

/// Bytes in an ICMP Echo header: type, code, checksum, identifier, sequence
/// number.
pub const ECHO_HEADER_SIZE: usize = 8;

/// The ICMP message type of an Echo Request.
pub const ECHO_REQUEST_TYPE: u8 = 8;

/// The wire bytes of an Echo Request whose checksum field still holds zero:
/// type `8`, code `0`, checksum `0`, identifier `0`, the sequence number
/// big-endian, then the payload.
pub open spec fn spec_echo_request_zero_checksum(seqn: u16, payload: Seq<u8>) -> Seq<u8> {
    seq![8u8, 0u8, 0u8, 0u8, 0u8, 0u8, (seqn / 256) as u8, (seqn % 256) as u8] + payload
}

/// The complete wire bytes of an Echo Request: as above, with the RFC 1071
/// checksum of the zero-checksum bytes written big-endian into bytes 2 and 3.
pub open spec fn spec_echo_request(seqn: u16, payload: Seq<u8>) -> Seq<u8> {
    let base = spec_echo_request_zero_checksum(seqn, payload);
    let c = spec_checksum(base);
    base.update(2, (c / 256) as u8).update(3, (c % 256) as u8)
}

/// What decoding an Echo Reply yields: the big-endian sequence number at
/// bytes 6 and 7, or nothing when the buffer is shorter than an Echo header.
pub open spec fn spec_decode_sequence(bytes: Seq<u8>) -> Option<u16> {
    if bytes.len() >= 8 {
        Some((bytes[6] * 256 + bytes[7]) as u16)
    } else {
        None
    }
}

/// The reply buffer was shorter than the minimum Echo Reply size.
#[derive(Clone, Copy, Debug, Eq, PartialEq, Structural)]
pub struct DecodeError;

/// Encodes one Echo Request: fills in type, code, identifier `0`, the
/// sequence number and the payload, then computes the RFC 1071 checksum over
/// the zero-checksum bytes and writes it into the checksum field.
pub fn new_icmpv4_package(sequence_number: SequenceNumber, payload: &Vec<u8>) -> (r: Vec<u8>)
    requires
        payload@.len() + 8 < 0x10000,
    ensures
        r@ == spec_echo_request(sequence_number.0, payload@),
        r@.len() == payload@.len() + 8,
{
    let seqn = sequence_number.0;
    let mut buf: Vec<u8> = Vec::new();
    buf.push(ECHO_REQUEST_TYPE);
    buf.push(0);
    buf.push(0);
    buf.push(0);
    buf.push(0);
    buf.push(0);
    buf.push((seqn / 256) as u8);
    buf.push((seqn % 256) as u8);
    assert(buf@ =~= spec_echo_request_zero_checksum(seqn, payload@.take(0)));
    let mut j: usize = 0;
    while j < payload.len()
        invariant
            j <= payload@.len(),
            payload@.len() + 8 < 0x10000,
            buf@ == spec_echo_request_zero_checksum(seqn, payload@.take(j as int)),
        decreases payload@.len() - j,
    {
        buf.push(payload[j]);
        assert(buf@ =~= spec_echo_request_zero_checksum(seqn, payload@.take(j + 1 as int)));
        j = j + 1;
    }
    assert(payload@.take(payload@.len() as int) =~= payload@);
    let ck = internet_checksum(&buf);
    proof {
        lemma_sum_words_nonneg(buf@, word_count(buf@));
        lemma_fold16_properties(checksum_input_sum(buf@));
    }
    let hi = (ck / 256) as u8;
    let lo = (ck % 256) as u8;
    buf.set(2, hi);
    buf.set(3, lo);
    buf
}

/// Decodes an Echo Reply: reads the big-endian sequence number, or reports
/// `DecodeError` when the buffer is shorter than the minimum Echo Reply size.
/// Assumes any IP header has already been stripped by the transport layer.
pub fn decode_echo_reply_sequence(bytes: &Vec<u8>) -> (r: Result<SequenceNumber, DecodeError>)
    ensures
        r matches Ok(s) <==> bytes@.len() >= 8,
        r matches Ok(s) ==> spec_decode_sequence(bytes@) == Some(s.0),
{
    if bytes.len() < ECHO_HEADER_SIZE {
        Err(DecodeError)
    } else {
        let seqn: u16 = bytes[6] as u16 * 256 + bytes[7] as u16;
        Ok(SequenceNumber(seqn))
    }
}

/// Law: decoding an encoded Echo Request recovers the sequence number it was
/// encoded with, for every sequence number and payload.
pub proof fn lemma_encode_decode_roundtrip(seqn: u16, payload: Seq<u8>)
    ensures
        spec_decode_sequence(spec_echo_request(seqn, payload)) == Some(seqn),
{
    let full = spec_echo_request(seqn, payload);
    assert(full.len() == 8 + payload.len());
    assert(full[6] == (seqn / 256) as u8);
    assert(full[7] == (seqn % 256) as u8);
    lemma_fundamental_div_mod(seqn as int, 256);
    lemma_mod_bound(seqn as int, 256);
    assert(0 <= seqn / 256 < 256) by (nonlinear_arith)
        requires
            0 <= seqn <= 0xFFFF,
            seqn == 256 * (seqn as int / 256) + seqn as int % 256,
            0 <= seqn as int % 256 < 256,
    ;
    assert(full[6] * 256 + full[7] == seqn);
}

/// Relies on `rand`'s `thread_rng` and `Rng::fill`: fills `buf` with random
/// bytes; the length is untouched, and `ThreadRng` does not fail.
#[verifier::external_body]
fn fill_random(buf: &mut Vec<u8>)
    ensures
        final(buf)@.len() == old(buf)@.len(),
{
    rand::thread_rng().fill(buf.as_mut_slice());
}

/// The Echo engine over one socket: the fixed random payload every request
/// carries, the socket, and the clock base timestamps are measured from.
pub struct IcmpV4<S> {
    payload: Vec<u8>,
    socket: S,
    clock: std::time::Instant,
}

impl<S: TSocket> IcmpV4<S> {
    /// The payload always holds exactly `PAYLOAD_SIZE` bytes.
    pub closed spec fn well_formed(&self) -> bool {
        self.payload@.len() == PAYLOAD_SIZE
    }

    /// A fresh engine over `socket`: `PAYLOAD_SIZE` random payload bytes and
    /// a fresh clock base.
    pub fn new(socket: S) -> (r: IcmpV4<S>)
        ensures
            r.well_formed(),
    {
        let mut payload = zeroed_buffer(PAYLOAD_SIZE);
        fill_random(&mut payload);
        IcmpV4 { payload, socket, clock: instant_now() }
    }

    /// Encodes one Echo Request carrying `sequence_number` and the engine's
    /// payload, stamps the send time, and writes the packet to the socket.
    /// On success reports the payload size, the destination, the sequence
    /// number, and the send time; whether the send succeeds is the socket's
    /// to decide.
    pub fn send_to(&self, ipv4: Ipv4Address, sequence_number: SequenceNumber) -> (r: PingResult<
        (usize, Ipv4Address, SequenceNumber, u64),
    >)
        requires
            self.well_formed(),
        ensures
            r matches Ok(t) ==> t.0 == PAYLOAD_SIZE && t.1 == ipv4 && t.2 == sequence_number,
    {
        let package = new_icmpv4_package(sequence_number, &self.payload);
        let start_time = elapsed_nanos(&self.clock);
        match self.socket.send_to(&package, ipv4) {
            Ok(_) => Ok((PAYLOAD_SIZE, ipv4, sequence_number, start_time)),
            Err(e) => Err(e.into_ping_error()),
        }
    }

    /// One receive attempt, every case kept apart; an error is an
    /// unrecoverable socket failure and nothing else.  A reply's reported
    /// size never exceeds the engine's receive buffer.
    pub fn try_receive_attempt(&self) -> (r: PingResult<ReceiveAttempt>)
        ensures
            r matches Ok(ReceiveAttempt::Reply(rec)) ==> rec.package_size <= 128,
    {
        let mut buf = zeroed_buffer(128);
        match self.socket.recv_from(&mut buf) {
            Err(SocketError::WouldBlock) => Ok(ReceiveAttempt::Nothing),
            Err(e) => Err(e.into_ping_error()),
            Ok((package_size, ip_addr, ttl)) => {
                let receive_time = elapsed_nanos(&self.clock);
                match decode_echo_reply_sequence(&buf) {
                    Err(_) => Ok(ReceiveAttempt::Malformed),
                    Ok(sequence_number) => Ok(
                        ReceiveAttempt::Reply(
                            PingReceiveRecordData {
                                package_size,
                                ip_addr,
                                ttl,
                                sequence_number,
                                receive_time,
                            },
                        ),
                    ),
                }
            },
        }
    }

    /// One receive attempt: `Ok(None)` when the socket's read timeout
    /// elapsed with nothing arriving, `Ok(Some(record))` for one reply with
    /// its decoded sequence number and a receive timestamp, an error when
    /// the socket failed or the reply was shorter than an Echo header.  A
    /// reply's reported size never exceeds the engine's receive buffer.
    pub fn try_receive(&self) -> (r: PingResult<Option<PingReceiveRecordData>>)
        ensures
            r matches Ok(Some(rec)) ==> rec.package_size <= 128,
    {
        match self.try_receive_attempt() {
            Err(e) => Err(e),
            Ok(ReceiveAttempt::Nothing) => Ok(None),
            Ok(ReceiveAttempt::Malformed) => Err(
                PingError { message: "echo reply shorter than the minimum reply size".to_owned() },
            ),
            Ok(ReceiveAttempt::Reply(record)) => Ok(Some(record)),
        }
    }
}

/// What one attempt to read the socket found.
#[derive(Clone, Copy, Debug, Eq, PartialEq, Structural)]
pub enum ReceiveAttempt {
    /// Nothing arrived before the read timeout.
    Nothing,
    /// Something arrived but was shorter than the minimum Echo Reply size.
    Malformed,
    /// One decodable Echo Reply.
    Reply(PingReceiveRecordData),
}

/// Law: the RFC 1071 checksum recomputed over an encoded Echo Request's wire
/// bytes, checksum field included, is zero.
pub proof fn lemma_echo_request_checksum_zero(seqn: u16, payload: Seq<u8>)
    ensures
        spec_checksum(spec_echo_request(seqn, payload)) == 0,
{
    let base = spec_echo_request_zero_checksum(seqn, payload);
    assert(base.len() >= 8);
    assert(base[2] == 0);
    assert(base[3] == 0);
    lemma_recomputed_checksum_is_zero(base);
}

} // verus!
