//! A plain IPv4 address: four octets in network (big-endian) order.

use vstd::prelude::*;

verus! {

/// An IPv4 address, held as its four octets in the order they appear on the
/// wire (most significant first).
#[derive(Clone, Copy, Debug, PartialEq, Eq, Structural)]
pub struct Ipv4Addr {
    pub a: u8,
    pub b: u8,
    pub c: u8,
    pub d: u8,
}

impl Ipv4Addr {
    /// Builds the address `a.b.c.d`.
    pub fn new(a: u8, b: u8, c: u8, d: u8) -> (r: Ipv4Addr)
        ensures
            r == (Ipv4Addr { a, b, c, d }),
    {
        Ipv4Addr { a, b, c, d }
    }

    /// The four octets, most significant first.
    pub fn octets(&self) -> (r: (u8, u8, u8, u8))
        ensures
            r == (self.a, self.b, self.c, self.d),
    {
        (self.a, self.b, self.c, self.d)
    }
}

} // verus!
