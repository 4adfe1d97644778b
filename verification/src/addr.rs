//! IPv4 addresses as plain octets.

use vstd::prelude::*;

verus! {

/// An IPv4 address, written as its four octets: `127.0.0.1` is
/// `Ipv4Address { o0: 127, o1: 0, o2: 0, o3: 1 }`.
#[derive(Clone, Copy, Debug, Eq, Hash, PartialEq, Structural)]
pub struct Ipv4Address {
    /// The leftmost (most significant) octet.
    pub o0: u8,
    /// The second octet.
    pub o1: u8,
    /// The third octet.
    pub o2: u8,
    /// The rightmost (least significant) octet.
    pub o3: u8,
}

impl Ipv4Address {
    /// The address `a.b.c.d`.
    pub fn new(a: u8, b: u8, c: u8, d: u8) -> (r: Ipv4Address)
        ensures
            r == (Ipv4Address { o0: a, o1: b, o2: c, o3: d }),
    {
        Ipv4Address { o0: a, o1: b, o2: c, o3: d }
    }

    /// The address packed big-endian into one number, as a mathematical
    /// value.
    pub open spec fn spec_u32(self) -> int {
        self.o0 * 0x1000000 + self.o1 * 0x10000 + self.o2 * 0x100 + self.o3
    }

    /// The address packed big-endian into one number, as a `u32` value; the
    /// packing is injective, so this value can stand for the address as a
    /// map key.
    pub open spec fn spec_key_u32(self) -> u32 {
        self.spec_u32() as u32
    }

    /// The address packed big-endian into a `u32`.
    pub fn to_u32(&self) -> (r: u32)
        ensures
            r == self.spec_u32(),
            r == self.spec_key_u32(),
    {
        (self.o0 as u32) * 0x1000000 + (self.o1 as u32) * 0x10000 + (self.o2 as u32) * 0x100
            + (self.o3 as u32)
    }
}

} // verus!
