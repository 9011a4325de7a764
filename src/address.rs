//! IPv4 addresses as four octets, and the network address derived from an
//! address and a mask.
use vstd::prelude::*;

verus! {

/// An IPv4 address (or a subnet mask, which has the same shape), held as its
/// four octets, most significant first.
#[derive(Clone, Copy, Debug, PartialEq, Eq, Hash)]
pub struct Ipv4Addr {
    pub octets: [u8; 4],
}

/// The 32-bit value of four octets, the first octet the most significant.
pub open spec fn pack(o0: u8, o1: u8, o2: u8, o3: u8) -> u32 {
    ((o0 as u32) << 24u32) | ((o1 as u32) << 16u32) | ((o2 as u32) << 8u32) | (o3 as u32)
}

/// The network address of `address` under `mask`, as its 32-bit value:
/// octet `i` of it is octet `i` of the address AND octet `i` of the mask.
pub open spec fn network_bits(address: Ipv4Addr, mask: Ipv4Addr) -> u32 {
    pack(
        address.octets[0] & mask.octets[0],
        address.octets[1] & mask.octets[1],
        address.octets[2] & mask.octets[2],
        address.octets[3] & mask.octets[3],
    )
}

/// `r` is the network address of the octets `address` under `mask`: each of
/// its octets is the AND of the two octets at that position.
pub open spec fn is_network_address(r: Ipv4Addr, address: [u8; 4], mask: [u8; 4]) -> bool {
    &&& r.octets[0] == address[0] & mask[0]
    &&& r.octets[1] == address[1] & mask[1]
    &&& r.octets[2] == address[2] & mask[2]
    &&& r.octets[3] == address[3] & mask[3]
}

/// The network address is a function of the address and the mask alone:
/// two results that both meet its definition for the same inputs are equal.
pub proof fn lemma_network_address_deterministic(
    address: [u8; 4],
    mask: [u8; 4],
    r1: Ipv4Addr,
    r2: Ipv4Addr,
)
    requires
        is_network_address(r1, address, mask),
        is_network_address(r2, address, mask),
    ensures
        r1 == r2,
{
    assert(r1.octets =~= r2.octets);
}

/// Taking the AND octet by octet is the same as taking the AND of the
/// 32-bit values.
pub proof fn lemma_network_bits_is_and(address: Ipv4Addr, mask: Ipv4Addr)
    ensures
        network_bits(address, mask) == address.bits() & mask.bits(),
{
    let (a0, a1, a2, a3) = (address.octets[0], address.octets[1], address.octets[2], address.octets[3]);
    let (m0, m1, m2, m3) = (mask.octets[0], mask.octets[1], mask.octets[2], mask.octets[3]);
    assert(pack(a0 & m0, a1 & m1, a2 & m2, a3 & m3) == pack(a0, a1, a2, a3) & pack(m0, m1, m2, m3))
        by (bit_vector);
}

impl Ipv4Addr {
    /// The 32-bit value of the address.
    pub open spec fn bits(self) -> u32 {
        pack(self.octets[0], self.octets[1], self.octets[2], self.octets[3])
    }

    /// The address `a.b.c.d`.
    pub fn new(a: u8, b: u8, c: u8, d: u8) -> (r: Ipv4Addr)
        ensures
            r.octets[0] == a,
            r.octets[1] == b,
            r.octets[2] == c,
            r.octets[3] == d,
    {
        Ipv4Addr { octets: [a, b, c, d] }
    }

    /// The four octets of the address, most significant first.
    pub fn octets(&self) -> (r: [u8; 4])
        ensures
            r == self.octets,
    {
        self.octets
    }

    /// The 32-bit value of the address.
    pub fn to_bits(&self) -> (r: u32)
        ensures
            r == self.bits(),
    {
        ((self.octets[0] as u32) << 24u32) | ((self.octets[1] as u32) << 16u32)
            | ((self.octets[2] as u32) << 8u32) | (self.octets[3] as u32)
    }
}

} // verus!
