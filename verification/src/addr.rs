//! Peer endpoints: IP addresses and ports, in canonical form.

use vstd::prelude::*;

verus! {

/// An IP address.
///
/// An IPv4 address holds its four octets packed big-endian into a `u32`; an
/// IPv6 address holds its sixteen octets packed big-endian into a `u128`.
/// With that packing, numeric order on the payload is exactly octet-wise
/// lexicographic order within each family.
#[derive(Copy, Clone, Debug, PartialEq, Eq, Structural)]
pub enum PeerIp {
    V4(u32),
    V6(u128),
}

/// A peer endpoint: an IP address and a port.
#[derive(Copy, Clone, Debug, PartialEq, Eq, Structural)]
pub struct PeerSocketAddr {
    pub ip: PeerIp,
    pub port: u16,
}

impl PeerIp {
    /// Whether this is an IPv6 address of the v4-mapped form
    /// `::ffff:a.b.c.d`: the upper 96 bits are `::ffff`.
    pub open spec fn is_v4_mapped_spec(self) -> bool {
        self matches PeerIp::V6(bits) && bits >> 32 == 0xffffu128
    }

    /// The canonical form of this address: a v4-mapped IPv6 address collapses
    /// to the IPv4 address it embeds; everything else (loopback included) is
    /// kept as it is.
    pub open spec fn canonical_spec(self) -> PeerIp {
        match self {
            PeerIp::V6(bits) => if bits >> 32 == 0xffffu128 {
                PeerIp::V4((bits & 0xffff_ffff) as u32)
            } else {
                self
            },
            PeerIp::V4(_) => self,
        }
    }

    /// Whether this address is already in canonical form.
    pub open spec fn is_canonical_spec(self) -> bool {
        self == self.canonical_spec()
    }

    /// Whether this is the unspecified address of its family (`0.0.0.0` or
    /// `::`).
    pub open spec fn is_unspecified_spec(self) -> bool {
        self == PeerIp::V4(0u32) || self == PeerIp::V6(0u128)
    }

    /// The canonical form of this address.
    pub fn canonical(self) -> (r: PeerIp)
        ensures
            r == self.canonical_spec(),
    {
        match self {
            PeerIp::V6(bits) => {
                if bits >> 32 == 0xffffu128 {
                    assert(bits & 0xffff_ffff <= 0xffff_ffffu128) by (bit_vector);
                    PeerIp::V4((bits & 0xffff_ffff) as u32)
                } else {
                    self
                }
            },
            PeerIp::V4(_) => self,
        }
    }

    /// Whether this is the unspecified address of its family.
    pub fn is_unspecified(&self) -> (r: bool)
        ensures
            r == self.is_unspecified_spec(),
    {
        match self {
            PeerIp::V4(bits) => *bits == 0,
            PeerIp::V6(bits) => *bits == 0,
        }
    }

    /// Builds an IPv4 address from its four octets, in the order they are
    /// written.
    pub fn v4_from_octets(a: u8, b: u8, c: u8, d: u8) -> (r: PeerIp)
        ensures
            r == PeerIp::V4(
                (((a as u32) << 24) | ((b as u32) << 16) | ((c as u32) << 8) | (d as u32)) as u32,
            ),
    {
        PeerIp::V4(((a as u32) << 24) | ((b as u32) << 16) | ((c as u32) << 8) | (d as u32))
    }
}

/// The canonical form of an endpoint: the IP in canonical form, the port
/// unchanged.
pub open spec fn canonical_socket_addr_spec(addr: PeerSocketAddr) -> PeerSocketAddr {
    PeerSocketAddr { ip: addr.ip.canonical_spec(), port: addr.port }
}

/// The canonical form of an endpoint.
///
/// All endpoints stored or compared by this crate are normalized with this
/// function first; a record's canonical endpoint is its identity.
pub fn canonical_socket_addr(addr: PeerSocketAddr) -> (r: PeerSocketAddr)
    ensures
        r == canonical_socket_addr_spec(addr),
{
    PeerSocketAddr { ip: addr.ip.canonical(), port: addr.port }
}

impl PeerSocketAddr {
    /// Whether this endpoint is in canonical form.
    pub open spec fn is_canonical_spec(self) -> bool {
        self.ip.is_canonical_spec()
    }
}

/// Law: canonicalization is idempotent, so a stored endpoint never changes
/// under re-normalization.
pub proof fn lemma_canonical_idempotent(addr: PeerSocketAddr)
    ensures
        canonical_socket_addr_spec(canonical_socket_addr_spec(addr)) == canonical_socket_addr_spec(
            addr,
        ),
{
}

} // verus!
