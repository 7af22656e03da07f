//! IPv4 addresses as four octets, and the arithmetic that places a slot's
//! addresses inside the base subnet.

use vstd::prelude::*;

verus! {

/// An IPv4 address, most significant octet first.
#[derive(Clone, Copy, Debug, PartialEq, Eq, Structural)]
pub struct Ipv4 {
    pub a: u8,
    pub b: u8,
    pub c: u8,
    pub d: u8,
}

impl Ipv4 {
    /// The address as one number, `a.b.c.d` read in base 256.
    pub open spec fn value(self) -> int {
        self.a * 16777216 + self.b * 65536 + self.c * 256 + self.d
    }

    /// The address as the kernel stores it in `in_addr`: the octets in
    /// network order, read back as a little-endian word.
    pub open spec fn wire_word(self) -> int {
        self.a + self.b * 256 + self.c * 65536 + self.d * 16777216
    }

    pub fn new(a: u8, b: u8, c: u8, d: u8) -> (ip: Ipv4)
        ensures
            ip == (Ipv4 { a, b, c, d }),
    {
        Ipv4 { a, b, c, d }
    }

    /// The four octets, most significant first.
    pub fn octets(self) -> (o: [u8; 4])
        ensures
            o@ == seq![self.a, self.b, self.c, self.d],
    {
        let o = [self.a, self.b, self.c, self.d];
        o
    }

    /// The octets in network order packed into a little-endian word.
    pub fn to_wire_word(self) -> (w: u32)
        ensures
            w == self.wire_word(),
    {
        let a: u32 = self.a as u32;
        let b: u32 = self.b as u32;
        let c: u32 = self.c as u32;
        let d: u32 = self.d as u32;
        a + b * 256 + c * 65536 + d * 16777216
    }
}

/// The address `n` places after `subnet`, counted in the last octet only.
pub open spec fn nth_ip(subnet: Ipv4, n: int) -> Ipv4 {
    Ipv4 { a: subnet.a, b: subnet.b, c: subnet.c, d: (subnet.d + n) as u8 }
}

/// The `n`-th address of a subnet. The first three octets are those of
/// `subnet`; only the last one moves, so `n` must not carry out of it.
pub fn nth_ip_in_subnet(subnet: Ipv4, n: u8) -> (ip: Ipv4)
    requires
        subnet.d + n <= 255,
    ensures
        ip == nth_ip(subnet, n as int),
        ip.value() == subnet.value() + n,
{
    Ipv4 { a: subnet.a, b: subnet.b, c: subnet.c, d: subnet.d + n }
}

} // verus!
