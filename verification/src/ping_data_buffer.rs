//! The send/receive correlation store.
//!
//! Records every transmitted request under its correlation key — the
//! (sequence number, destination) pair — and resolves each incoming reply
//! into a round-trip outcome by looking that key up and removing it.  A key
//! is removed exactly once, on the first matching reply; a reply that
//! matches nothing is a non-fatal correlation miss.  No entry expires on a
//! timer: a request whose reply never arrives leaves a residual entry until
//! its key is reused after sequence-number wraparound.

use crate::addr::Ipv4Address;
use crate::channel::Receiver;
use crate::records::{PingReceiveRecordData, PingSendRecord};
use crate::ping_response_data::PingReceiveResultData;
use crate::sequence_number::SequenceNumber;
use std::collections::HashMap;
use vstd::prelude::*;

verus! {

broadcast use vstd::std_specs::hash::group_hash_axioms;

/// A reply matched no pending request: a duplicate, a reply to an already
/// resolved key, or unexpected traffic.
#[derive(Clone, Copy, Debug, Eq, PartialEq, Structural)]
pub enum CorrelationError {
    /// No pending send record exists for the reply's key.
    NotFound,
}

/// The correlation key of a sequence number and a destination, packed into
/// one `u64`: the address in the bits above the sequence number.
pub open spec fn spec_correlation_key(sequence_number: u16, ip_addr: Ipv4Address) -> u64 {
    (ip_addr.spec_u32() * 0x10000 + sequence_number) as u64
}

/// A round-trip duration: receive time minus send time, clamped at zero
/// should the clock readings ever cross.
pub open spec fn spec_duration(send_time: u64, receive_time: u64) -> u64 {
    if receive_time >= send_time {
        (receive_time - send_time) as u64
    } else {
        0u64
    }
}

/// Law: the packing of a (sequence number, destination) pair into one
/// correlation key is injective, so the table keyed by the packed value
/// faithfully stands for a table keyed by the pair.
pub proof fn lemma_correlation_key_injective(
    s1: u16,
    a1: Ipv4Address,
    s2: u16,
    a2: Ipv4Address,
)
    requires
        spec_correlation_key(s1, a1) == spec_correlation_key(s2, a2),
    ensures
        s1 == s2,
        a1 == a2,
{
    assert(a1.spec_u32() * 0x10000 + s1 == a2.spec_u32() * 0x10000 + s2);
}

/// Computes the correlation key of a reply or request.
pub fn correlation_key(sequence_number: SequenceNumber, ip_addr: Ipv4Address) -> (r: u64)
    ensures
        r == spec_correlation_key(sequence_number.0, ip_addr),
{
    ip_addr.to_u32() as u64 * 0x10000 + sequence_number.0 as u64
}

/// The pending table after one send record is recorded: the record's payload
/// size and send time inserted under its correlation key.
pub open spec fn spec_record_sent(
    m: Map<u64, (usize, u64)>,
    record: PingSendRecord,
) -> Map<u64, (usize, u64)> {
    m.insert(
        spec_correlation_key(record.sequence_number.0, record.ip_addr),
        (record.payload_size, record.send_time),
    )
}

/// The pending table after `records` are recorded in order.
pub open spec fn spec_record_all(
    m: Map<u64, (usize, u64)>,
    records: Seq<PingSendRecord>,
) -> Map<u64, (usize, u64)>
    decreases records.len(),
{
    if records.len() == 0 {
        m
    } else {
        spec_record_all(spec_record_sent(m, records[0]), records.skip(1))
    }
}

/// Recording one more record at the end is one more insertion at the end.
proof fn lemma_record_all_push(
    m: Map<u64, (usize, u64)>,
    records: Seq<PingSendRecord>,
    record: PingSendRecord,
)
    ensures
        spec_record_all(m, records.push(record)) == spec_record_sent(
            spec_record_all(m, records),
            record,
        ),
    decreases records.len(),
{
    if records.len() == 0 {
        assert(records.push(record)[0] == record);
        assert(records.push(record).skip(1) =~= Seq::<PingSendRecord>::empty());
        assert(spec_record_all(m, records.push(record)) == spec_record_all(
            spec_record_sent(m, record),
            Seq::<PingSendRecord>::empty(),
        ));
        assert(spec_record_all(spec_record_sent(m, record), Seq::<PingSendRecord>::empty())
            == spec_record_sent(m, record));
        assert(spec_record_all(m, records) == m);
    } else {
        assert(records.push(record)[0] == records[0]);
        assert(records.push(record).skip(1) =~= records.skip(1).push(record));
        assert(spec_record_all(m, records.push(record)) == spec_record_all(
            spec_record_sent(m, records[0]),
            records.skip(1).push(record),
        ));
        lemma_record_all_push(spec_record_sent(m, records[0]), records.skip(1), record);
        assert(spec_record_all(m, records) == spec_record_all(
            spec_record_sent(m, records[0]),
            records.skip(1),
        ));
    }
}

/// The correlation store: drains send records off the bounded channel into a
/// pending table and resolves received replies against it.
pub struct PingDataBuffer {
    ping_send_event_rx: Receiver,
    drain_limit: usize,
    send_events: HashMap<u64, (usize, u64)>,
}

impl PingDataBuffer {
    /// The pending table: correlation key to (payload size, send time).
    pub closed spec fn pending(&self) -> Map<u64, (usize, u64)> {
        self.send_events@
    }

    /// A fresh store with an empty pending table, fed by
    /// `ping_send_event_rx`.  One call to `process_send_events` drains at
    /// most `channel_size` queued records — one channel's worth, which is all
    /// that can be queued at once.
    pub fn new(ping_send_event_rx: Receiver, channel_size: usize) -> (r: PingDataBuffer)
        ensures
            r.pending() == Map::<u64, (usize, u64)>::empty(),
    {
        PingDataBuffer { ping_send_event_rx, drain_limit: channel_size, send_events: HashMap::new() }
    }

    /// Records one transmitted request: inserts, under the request's
    /// correlation key, its payload size and send time, overwriting any entry
    /// already present for a reused key.  Nothing else changes.
    pub fn record_sent(&mut self, record: PingSendRecord)
        ensures
            final(self).pending() == spec_record_sent(old(self).pending(), record),
    {
        let key = correlation_key(record.sequence_number, record.ip_addr);
        self.send_events.insert(key, (record.payload_size, record.send_time));
    }

    /// Drains the queued send records into the pending table — each under
    /// its own key, with its payload size and send time, in arrival order,
    /// overwriting a reused key — and reports exactly how many were drained.
    /// The table changes by those insertions and nothing else: in particular
    /// no entry is ever removed here.  At most one channel's worth is taken
    /// per call; how many records the channel holds is the sending side's
    /// doing, so nothing promises that any arrive.
    pub fn process_send_events(&mut self) -> (n: usize)
        ensures
            exists|records: Seq<PingSendRecord>|
                {
                    &&& n == records.len()
                    &&& final(self).pending() == spec_record_all(old(self).pending(), records)
                },
            old(self).pending().dom() <= final(self).pending().dom(),
    {
        let limit = self.drain_limit;
        let mut n: usize = 0;
        let mut done = false;
        let ghost mut drained: Seq<PingSendRecord> = Seq::empty();
        while !done && n < limit
            invariant
                old(self).pending().dom() <= self.pending().dom(),
                n <= limit,
                n == drained.len(),
                self.pending() == spec_record_all(old(self).pending(), drained),
            decreases limit - n + (if done { 0int } else { 1int }),
        {
            match self.ping_send_event_rx.try_receive() {
                Ok(record) => {
                    proof {
                        lemma_record_all_push(old(self).pending(), drained, record);
                        drained = drained.push(record);
                    }
                    self.record_sent(record);
                    n = n + 1;
                },
                Err(_) => {
                    done = true;
                },
            }
        }
        n
    }

    /// Resolves one received reply: when its key is pending, removes the
    /// entry — exactly once — and returns the round trip with
    /// `ping_duration == receive_time - send_time`; otherwise reports
    /// `NotFound` and leaves the table untouched.
    pub fn process_receive_event(&mut self, data: &PingReceiveRecordData) -> (r: Result<
        PingReceiveResultData,
        CorrelationError,
    >)
        ensures
            ({
                let key = spec_correlation_key(data.sequence_number.0, data.ip_addr);
                if old(self).pending().dom().contains(key) {
                    &&& r matches Ok(out)
                    &&& final(self).pending() == old(self).pending().remove(key)
                    &&& (r matches Ok(out) ==> {
                        &&& out.package_size == data.package_size
                        &&& out.ip_addr == data.ip_addr
                        &&& out.ttl == data.ttl.0
                        &&& out.sequence_number == data.sequence_number.0
                        &&& out.ping_duration == spec_duration(
                            old(self).pending()[key].1,
                            data.receive_time,
                        )
                    })
                } else {
                    &&& r == Err::<PingReceiveResultData, CorrelationError>(
                        CorrelationError::NotFound,
                    )
                    &&& final(self).pending() == old(self).pending()
                }
            }),
    {
        let key = correlation_key(data.sequence_number, data.ip_addr);
        match self.send_events.get(&key) {
            None => Err(CorrelationError::NotFound),
            Some(entry) => {
                let send_time = entry.1;
                self.send_events.remove(&key);
                let duration = if data.receive_time >= send_time {
                    data.receive_time - send_time
                } else {
                    0
                };
                Ok(
                    PingReceiveResultData {
                        package_size: data.package_size,
                        ip_addr: data.ip_addr,
                        ttl: data.ttl.0,
                        sequence_number: data.sequence_number.0,
                        ping_duration: duration,
                    },
                )
            },
        }
    }
}

} // verus!
