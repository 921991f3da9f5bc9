//! The service bits a peer advertises.

use vstd::prelude::*;

verus! {

/// The service bit advertised by nodes that serve full network data.
///
/// This is the only bit this crate interprets; all other bits are preserved
/// verbatim through (de)serialization and ignored by policy.
pub const NODE_NETWORK: u64 = 1;

/// A peer's advertised services: a 64-bit set of capability bits.
#[derive(Copy, Clone, Debug, PartialEq, Eq, Structural)]
pub struct PeerServices {
    pub bits: u64,
}

impl PeerServices {
    /// Whether every bit of `flags` is set in this service set.
    pub open spec fn contains_spec(self, flags: u64) -> bool {
        self.bits & flags == flags
    }

    /// Whether every bit of `flags` is set in this service set.
    pub fn contains(&self, flags: u64) -> (r: bool)
        ensures
            r == self.contains_spec(flags),
    {
        self.bits & flags == flags
    }

    /// Builds a service set from raw wire bits.
    ///
    /// The bitset is 64 bits wide, the full width of the wire encoding, so no
    /// bit is out of range and all are kept.
    pub fn from_bits_truncate(bits: u64) -> (r: PeerServices)
        ensures
            r == (PeerServices { bits }),
    {
        PeerServices { bits }
    }

    /// The raw bits of this service set.
    pub fn bits(&self) -> (r: u64)
        ensures
            r == self.bits,
    {
        self.bits
    }
}

} // verus!
