//! Socket addresses as plain values, and the canonicalization of
//! IPv4-mapped IPv6 addresses.

use vstd::prelude::*;

verus! {

/// The size of the IPv4 space, and the factor between the upper 96 bits of an
/// IPv6 address and the whole of it.
pub const V4_SPACE: u128 = 0x1_0000_0000;

/// The upper 96 bits of an IPv4-mapped IPv6 address (`::ffff:0:0/96`).
pub const V4_MAPPED_PREFIX: u128 = 0xffff;

/// An IP address: IPv4 as its 32 bits, IPv6 as its 128 bits, in network order.
#[derive(Clone, Copy, Debug, PartialEq, Eq, Structural)]
pub enum IpAddress {
    V4(u32),
    V6(u128),
}

/// An IP address and a port, as a peer is seen by the other side.
#[derive(Clone, Copy, Debug, PartialEq, Eq, Structural)]
pub struct PeerAddr {
    pub ip: IpAddress,
    pub port: u16,
}

/// Whether `bits` is an IPv4-mapped IPv6 address, `::ffff:a.b.c.d`.
pub open spec fn is_v4_mapped_bits(bits: u128) -> bool {
    bits / V4_SPACE == V4_MAPPED_PREFIX
}

/// The IPv4 address that a mapped IPv6 address carries in its low 32 bits.
pub open spec fn mapped_v4_bits(bits: u128) -> u32 {
    (bits % V4_SPACE) as u32
}

/// An address with an IPv4-mapped IPv6 address turned into plain IPv4; any
/// other address as it is.
pub open spec fn canonical_ip_spec(ip: IpAddress) -> IpAddress {
    match ip {
        IpAddress::V6(bits) => if is_v4_mapped_bits(bits) {
            IpAddress::V4(mapped_v4_bits(bits))
        } else {
            ip
        },
        IpAddress::V4(_) => ip,
    }
}

/// The address that punching targets, given the address of the rendezvous
/// server (which decides the socket family) and the peer address it reported.
pub open spec fn punch_target_spec(server: PeerAddr, reported: PeerAddr) -> PeerAddr {
    match server.ip {
        IpAddress::V4(_) => PeerAddr { ip: canonical_ip_spec(reported.ip), port: reported.port },
        IpAddress::V6(_) => reported,
    }
}

impl IpAddress {
    pub fn is_ipv4(&self) -> (r: bool)
        ensures
            r == (*self is V4),
    {
        match self {
            IpAddress::V4(_) => true,
            IpAddress::V6(_) => false,
        }
    }

    /// Turns an IPv4-mapped IPv6 address into plain IPv4; any other address is
    /// returned unchanged.
    pub fn to_canonical(&self) -> (r: IpAddress)
        ensures
            r == canonical_ip_spec(*self),
    {
        match self {
            IpAddress::V6(bits) => {
                if *bits / V4_SPACE == V4_MAPPED_PREFIX {
                    IpAddress::V4((*bits % V4_SPACE) as u32)
                } else {
                    *self
                }
            },
            IpAddress::V4(_) => *self,
        }
    }
}

impl PeerAddr {
    pub fn new(ip: IpAddress, port: u16) -> (r: PeerAddr)
        ensures
            r.ip == ip,
            r.port == port,
    {
        PeerAddr { ip, port }
    }
}

/// The address to punch towards: for a client that reached its rendezvous
/// server over IPv4, an IPv4-mapped peer address is made plain IPv4; over
/// IPv6 the reported address is used as it is.
pub fn punch_target(server: &PeerAddr, reported: &PeerAddr) -> (r: PeerAddr)
    ensures
        r == punch_target_spec(*server, *reported),
{
    if server.ip.is_ipv4() {
        PeerAddr { ip: reported.ip.to_canonical(), port: reported.port }
    } else {
        *reported
    }
}

/// A native IPv6 address keeps its family and value through canonicalization,
/// and a mapped one comes out as the IPv4 address that it carries.
pub proof fn lemma_canonical_round_trip(v4: u32, bits: u128)
    ensures
        canonical_ip_spec(IpAddress::V6((V4_MAPPED_PREFIX * V4_SPACE + v4) as u128))
            == IpAddress::V4(v4),
        !is_v4_mapped_bits(bits) ==> canonical_ip_spec(IpAddress::V6(bits)) == IpAddress::V6(bits),
        canonical_ip_spec(IpAddress::V4(v4)) == IpAddress::V4(v4),
{
    let b: int = 0xffff * 0x1_0000_0000 + v4 as int;
    assert(b / 0x1_0000_0000 == 0xffff && b % 0x1_0000_0000 == v4 as int) by (nonlinear_arith)
        requires
            b == 0xffff * 0x1_0000_0000 + v4 as int,
            0 <= v4 < 0x1_0000_0000,
    ;
}

} // verus!
