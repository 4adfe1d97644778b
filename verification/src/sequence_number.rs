//! ICMP Echo sequence numbers.
//!
//! Sequence numbers occupy `[1, 65535]`; `0` is reserved and never emitted.
//! The successor of `65535` wraps back to `1`.

use crate::addr::Ipv4Address;
use std::collections::HashMap;
use vstd::arithmetic::div_mod::{lemma_add_mod_noop, lemma_mod_self_0, lemma_small_mod};
use vstd::prelude::*;

verus! {

broadcast use vstd::std_specs::hash::group_hash_axioms;

/// A 16-bit ICMP Echo sequence number.
#[derive(Clone, Copy, Debug, Eq, Hash, PartialEq, Structural)]
pub struct SequenceNumber(pub u16);

/// The successor of a sequence-number value: `65535` wraps to `1`,
/// every other value advances by one, so `0` is never produced.
pub open spec fn spec_next_sequence(v: u16) -> u16 {
    if v == 0xFFFF {
        1u16
    } else {
        (v + 1) as u16
    }
}

impl SequenceNumber {
    /// The raw value numbering starts from: ICMPv4 sequence numbers start at 1.
    pub fn start_value_inner_type() -> (r: u16)
        ensures
            r == 1u16,
    {
        1
    }

    /// The first sequence number of a fresh train.
    pub fn start_value() -> (r: SequenceNumber)
        ensures
            r.0 == 1u16,
    {
        SequenceNumber(1)
    }

    /// The first sequence number of a fresh train.
    pub fn start_value2() -> (r: SequenceNumber)
        ensures
            r.0 == 1u16,
    {
        SequenceNumber(1)
    }

    /// The largest raw value a sequence number can take.
    pub fn max_value() -> (r: u16)
        ensures
            r == 0xFFFFu16,
    {
        0xFFFF
    }

    /// The sequence number following this one, wrapping `65535 -> 1`.
    pub fn next(self) -> (r: SequenceNumber)
        ensures
            r.0 == spec_next_sequence(self.0),
    {
        if self.0 == 0xFFFF {
            SequenceNumber(1)
        } else {
            SequenceNumber(self.0 + 1)
        }
    }
}

impl From<u16> for SequenceNumber {
    fn from(value: u16) -> (r: SequenceNumber) {
        SequenceNumber(value)
    }
}

impl vstd::std_specs::convert::FromSpecImpl<u16> for SequenceNumber {
    open spec fn obeys_from_spec() -> bool {
        true
    }

    open spec fn from_spec(v: u16) -> SequenceNumber {
        SequenceNumber(v)
    }
}

impl From<SequenceNumber> for u16 {
    fn from(value: SequenceNumber) -> (r: u16) {
        value.0
    }
}

impl vstd::std_specs::convert::FromSpecImpl<SequenceNumber> for u16 {
    open spec fn obeys_from_spec() -> bool {
        true
    }

    open spec fn from_spec(v: SequenceNumber) -> u16 {
        v.0
    }
}

/// Law: two consecutive rounds to one destination use `n` and then its
/// successor — `n + 1`, or `1` wrapped past `65535` — and the successor is
/// never `0` and never `n` itself, so the next round cannot reuse the key an
/// unresolved reply of this round still occupies.
pub proof fn lemma_consecutive_rounds_advance(n: u16)
    requires
        n != 0,
    ensures
        spec_next_sequence(n) == if n == 0xFFFF {
            1u16
        } else {
            (n + 1) as u16
        },
        spec_next_sequence(n) != n,
        spec_next_sequence(n) != 0,
{
}

/// One sequence-number counter per destination, so that concurrent ping
/// trains to different hosts do not perturb each other's numbering.
pub struct SequenceAllocator {
    counters: HashMap<u32, u16>,
}

impl SequenceAllocator {
    /// The counters: each destination (packed big-endian into a `u32`) maps
    /// to the raw value last handed out for it.
    pub closed spec fn counters_map(&self) -> Map<u32, u16> {
        self.counters@
    }

    /// Every recorded value lies in `[1, 65535]`: `0` is never handed out.
    pub open spec fn well_formed(&self) -> bool {
        forall|k: u32| self.counters_map().dom().contains(k) ==> #[trigger] self.counters_map()[k]
            != 0
    }

    /// A fresh allocator: no destination has a counter yet.
    pub fn new() -> (r: SequenceAllocator)
        ensures
            r.counters_map() == Map::<u32, u16>::empty(),
            r.well_formed(),
    {
        SequenceAllocator { counters: HashMap::new() }
    }

    /// The next sequence number for `destination`: `1` the first time, then
    /// the successor of the last one handed out, wrapping `65535 -> 1` and
    /// never emitting `0`.
    pub fn next(&mut self, destination: Ipv4Address) -> (r: SequenceNumber)
        requires
            old(self).well_formed(),
        ensures
            r.0 == if old(self).counters_map().dom().contains(destination.spec_key_u32()) {
                spec_next_sequence(old(self).counters_map()[destination.spec_key_u32()])
            } else {
                1u16
            },
            final(self).counters_map() == old(self).counters_map().insert(
                destination.spec_key_u32(),
                r.0,
            ),
            final(self).well_formed(),
            r.0 != 0,
    {
        let key = destination.to_u32();
        let value = match self.counters.get(&key) {
            Some(current) => SequenceNumber(*current).next(),
            None => SequenceNumber::start_value(),
        };
        self.counters.insert(key, value.0);
        proof {
            let m = self.counters_map();
            assert forall|k: u32| m.dom().contains(k) implies #[trigger] m[k] != 0 by {
                if k != destination.spec_key_u32() {
                    assert(old(self).counters_map().dom().contains(k));
                    assert(old(self).counters_map()[k] != 0);
                }
            }
        }
        value
    }
}

/// The raw value emitted by the `k`-th `next` in a row, counting the start
/// value `1` as `k == 0`.
pub open spec fn nth_sequence_value(k: nat) -> u16
    decreases k,
{
    if k == 0 {
        1u16
    } else {
        spec_next_sequence(nth_sequence_value((k - 1) as nat))
    }
}

/// Law: a sequence-number train emits `1, 2, ..., 65535` and then wraps back
/// to `1`; the `k`-th value is `k % 65535 + 1`, and `0` never appears.
pub proof fn lemma_sequence_numbers_cycle(k: nat)
    ensures
        nth_sequence_value(k) == k % 65535 + 1,
        nth_sequence_value(k) != 0,
    decreases k,
{
    if k == 0 {
        assert(k % 65535 == 0) by {
            lemma_small_mod(k, 65535);
        }
    } else {
        let j = (k - 1) as nat;
        lemma_sequence_numbers_cycle(j);
        lemma_add_mod_noop(j as int, 1, 65535);
        assert(1int % 65535 == 1) by {
            lemma_small_mod(1, 65535);
        }
        if j % 65535 == 65534 {
            assert(65535int % 65535 == 0) by {
                lemma_mod_self_0(65535);
            }
        } else {
            assert((j % 65535 + 1) % 65535 == j % 65535 + 1) by {
                lemma_small_mod((j % 65535 + 1) as nat, 65535);
            }
        }
    }
}

} // verus!
