//! IPv4 addresses as four octets.

use vstd::prelude::*;

verus! {

/// An IPv4 address, most significant octet first.
#[derive(Clone, Copy, Debug, PartialEq, Eq, Structural)]
pub struct Ipv4 {
    pub a: u8,
    pub b: u8,
    pub c: u8,
    pub d: u8,
}

impl Ipv4 {
    /// The address `a.b.c.d`.
    pub fn new(a: u8, b: u8, c: u8, d: u8) -> (addr: Ipv4)
        ensures
            addr == (Ipv4 { a, b, c, d }),
    {
        Ipv4 { a, b, c, d }
    }

    /// The four octets in network order.
    pub fn octets(&self) -> (out: [u8; 4])
        ensures
            out@ == seq![self.a, self.b, self.c, self.d],
    {
        [self.a, self.b, self.c, self.d]
    }

    /// The address whose octets in network order are `octets`.
    pub fn from_octets(octets: [u8; 4]) -> (addr: Ipv4)
        ensures
            addr == (Ipv4 { a: octets@[0], b: octets@[1], c: octets@[2], d: octets@[3] }),
    {
        Ipv4 { a: octets[0], b: octets[1], c: octets[2], d: octets[3] }
    }
}

} // verus!
