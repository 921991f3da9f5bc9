//! The total order over peer records used for reconnection priority.
//!
//! Records are compared key by key, earlier keys dominating: peer state,
//! then the local interaction times (oldest first, `None` before any
//! reading), then the untrusted gossiped last-seen claim (most recent
//! first), then the service bits, and finally the endpoint itself as a
//! tie-breaker. Local, trusted information is compared before anything a
//! remote peer controls, so an adversary's claims only ever act as a late
//! tie-break.

use core::cmp::Ordering;

use vstd::prelude::*;

use crate::addr::PeerIp;
use crate::meta_addr::{MetaAddr, PeerAddrState};
use crate::time::{DateTime32, LocalInstant};

verus! {

/// The comparison of two mathematical integers.
pub open spec fn cmp_int(a: int, b: int) -> Ordering {
    if a < b {
        Ordering::Less
    } else if a == b {
        Ordering::Equal
    } else {
        Ordering::Greater
    }
}

/// Lexicographic chaining: the first comparison unless it is a tie.
pub open spec fn then_spec(first: Ordering, second: Ordering) -> Ordering {
    if first is Equal {
        second
    } else {
        first
    }
}

/// An optional timestamp as a sort key: `None` sorts below every reading.
pub open spec fn opt_datetime_key(o: Option<DateTime32>) -> int {
    match o {
        None => -1,
        Some(t) => t.timestamp as int,
    }
}

/// An optional instant as a sort key: `None` sorts below every reading.
pub open spec fn opt_instant_key(o: Option<LocalInstant>) -> int {
    match o {
        None => -1,
        Some(t) => t.millis as int,
    }
}

/// An IP address as a sort key: every IPv4 address sorts below every IPv6
/// address, and within a family the packed big-endian octets give octet-wise
/// order.
pub open spec fn ip_key(ip: PeerIp) -> int {
    match ip {
        PeerIp::V4(bits) => bits as int,
        PeerIp::V6(bits) => 0x1_0000_0000 + bits as int,
    }
}

impl PeerAddrState {
    /// The state's place in reconnection-attempt order: proven-reliable
    /// peers first, then fresh gossip, then alternate discoveries, then
    /// failed peers, and in-flight dials last so they are not duplicated.
    pub open spec fn rank_spec(self) -> int {
        match self {
            PeerAddrState::Responded => 0,
            PeerAddrState::NeverAttemptedGossiped => 1,
            PeerAddrState::NeverAttemptedAlternate => 2,
            PeerAddrState::Failed => 3,
            PeerAddrState::AttemptPending => 4,
        }
    }

    fn rank(&self) -> (r: u8)
        ensures
            r == self.rank_spec(),
    {
        match self {
            PeerAddrState::Responded => 0,
            PeerAddrState::NeverAttemptedGossiped => 1,
            PeerAddrState::NeverAttemptedAlternate => 2,
            PeerAddrState::Failed => 3,
            PeerAddrState::AttemptPending => 4,
        }
    }

    /// Compares two states in reconnection-attempt order.
    pub fn cmp(&self, other: &PeerAddrState) -> (r: Ordering)
        ensures
            r == cmp_int(self.rank_spec(), other.rank_spec()),
    {
        let a = self.rank();
        let b = other.rank();
        if a < b {
            Ordering::Less
        } else if a == b {
            Ordering::Equal
        } else {
            Ordering::Greater
        }
    }
}

fn cmp_u64(a: u64, b: u64) -> (r: Ordering)
    ensures
        r == cmp_int(a as int, b as int),
{
    if a < b {
        Ordering::Less
    } else if a == b {
        Ordering::Equal
    } else {
        Ordering::Greater
    }
}

fn cmp_u16(a: u16, b: u16) -> (r: Ordering)
    ensures
        r == cmp_int(a as int, b as int),
{
    if a < b {
        Ordering::Less
    } else if a == b {
        Ordering::Equal
    } else {
        Ordering::Greater
    }
}

fn cmp_opt_datetime(a: Option<DateTime32>, b: Option<DateTime32>) -> (r: Ordering)
    ensures
        r == cmp_int(opt_datetime_key(a), opt_datetime_key(b)),
{
    match (a, b) {
        (None, None) => Ordering::Equal,
        (None, Some(_)) => Ordering::Less,
        (Some(_), None) => Ordering::Greater,
        (Some(x), Some(y)) => {
            if x.timestamp < y.timestamp {
                Ordering::Less
            } else if x.timestamp == y.timestamp {
                Ordering::Equal
            } else {
                Ordering::Greater
            }
        },
    }
}

fn cmp_opt_instant(a: Option<LocalInstant>, b: Option<LocalInstant>) -> (r: Ordering)
    ensures
        r == cmp_int(opt_instant_key(a), opt_instant_key(b)),
{
    match (a, b) {
        (None, None) => Ordering::Equal,
        (None, Some(_)) => Ordering::Less,
        (Some(_), None) => Ordering::Greater,
        (Some(x), Some(y)) => {
            if x.millis < y.millis {
                Ordering::Less
            } else if x.millis == y.millis {
                Ordering::Equal
            } else {
                Ordering::Greater
            }
        },
    }
}

fn cmp_ip(a: PeerIp, b: PeerIp) -> (r: Ordering)
    ensures
        r == cmp_int(ip_key(a), ip_key(b)),
{
    match (a, b) {
        (PeerIp::V4(x), PeerIp::V4(y)) => {
            if x < y {
                Ordering::Less
            } else if x == y {
                Ordering::Equal
            } else {
                Ordering::Greater
            }
        },
        (PeerIp::V6(x), PeerIp::V6(y)) => {
            if x < y {
                Ordering::Less
            } else if x == y {
                Ordering::Equal
            } else {
                Ordering::Greater
            }
        },
        (PeerIp::V4(_), PeerIp::V6(_)) => Ordering::Less,
        (PeerIp::V6(_), PeerIp::V4(_)) => Ordering::Greater,
    }
}

fn ordering_is_equal(o: Ordering) -> (r: bool)
    ensures
        r == (o is Equal),
{
    matches!(o, Ordering::Equal)
}

impl MetaAddr {
    /// The total order over records, as a comparison of two records.
    ///
    /// Keys, earlier dominating: peer state; `last_attempt` ascending
    /// (`None` first, so untried peers and oldest attempts come first);
    /// `last_failure` ascending; `last_response` ascending; the untrusted
    /// gossiped last-seen claim descending (more recently gossiped first);
    /// the service bits ascending; the IP (IPv4 before IPv6, octet-wise
    /// within a family); and the port.
    pub open spec fn cmp_spec(self, other: MetaAddr) -> Ordering {
        then_spec(
            cmp_int(
                self.last_connection_state.rank_spec(),
                other.last_connection_state.rank_spec(),
            ),
            then_spec(
                cmp_int(opt_instant_key(self.last_attempt), opt_instant_key(other.last_attempt)),
                then_spec(
                    cmp_int(
                        opt_instant_key(self.last_failure),
                        opt_instant_key(other.last_failure),
                    ),
                    then_spec(
                        cmp_int(
                            opt_datetime_key(self.last_response),
                            opt_datetime_key(other.last_response),
                        ),
                        then_spec(
                            cmp_int(
                                opt_datetime_key(other.untrusted_last_seen),
                                opt_datetime_key(self.untrusted_last_seen),
                            ),
                            then_spec(
                                cmp_int(self.services.bits as int, other.services.bits as int),
                                then_spec(
                                    cmp_int(ip_key(self.addr.ip), ip_key(other.addr.ip)),
                                    cmp_int(self.addr.port as int, other.addr.port as int),
                                ),
                            ),
                        ),
                    ),
                ),
            ),
        )
    }

    /// Compares two records in reconnection priority order.
    ///
    /// This comparison is the sole source of truth for "which peer next";
    /// callers must not substitute ad-hoc comparisons.
    pub fn cmp(&self, other: &MetaAddr) -> (r: Ordering)
        ensures
            r == self.cmp_spec(*other),
    {
        let mut r = self.last_connection_state.cmp(&other.last_connection_state);
        if ordering_is_equal(r) {
            r = cmp_opt_instant(self.last_attempt, other.last_attempt);
        }
        if ordering_is_equal(r) {
            r = cmp_opt_instant(self.last_failure, other.last_failure);
        }
        if ordering_is_equal(r) {
            r = cmp_opt_datetime(self.last_response, other.last_response);
        }
        if ordering_is_equal(r) {
            // The one untrusted key, compared late and reversed: more
            // recently gossiped peers first.
            r = cmp_opt_datetime(other.untrusted_last_seen, self.untrusted_last_seen);
        }
        if ordering_is_equal(r) {
            r = cmp_u64(self.services.bits(), other.services.bits());
        }
        if ordering_is_equal(r) {
            r = cmp_ip(self.addr.ip, other.addr.ip);
        }
        if ordering_is_equal(r) {
            r = cmp_u16(self.addr.port, other.addr.port);
        }
        r
    }
}

impl PartialEq for MetaAddr {
    /// Records are equal exactly when the total order cannot tell them
    /// apart.
    fn eq(&self, other: &Self) -> (r: bool) {
        proof {
            lemma_cmp_equal_iff_same(*self, *other);
        }
        matches!(self.cmp(other), Ordering::Equal)
    }
}

impl vstd::std_specs::cmp::PartialEqSpecImpl for MetaAddr {
    open spec fn obeys_eq_spec() -> bool {
        true
    }

    open spec fn eq_spec(&self, other: &MetaAddr) -> bool {
        *self == *other
    }
}

impl Eq for MetaAddr {

}

impl PartialOrd for MetaAddr {
    fn partial_cmp(&self, other: &Self) -> (r: Option<Ordering>) {
        Some(self.cmp(other))
    }
}

impl vstd::std_specs::cmp::PartialOrdSpecImpl for MetaAddr {
    open spec fn obeys_partial_cmp_spec() -> bool {
        true
    }

    open spec fn partial_cmp_spec(&self, other: &MetaAddr) -> Option<Ordering> {
        Some(self.cmp_spec(*other))
    }
}

/// Law: the order is antisymmetric: comparing in the other direction
/// mirrors the outcome.
pub proof fn lemma_cmp_antisymmetric(a: MetaAddr, b: MetaAddr)
    ensures
        a.cmp_spec(b) is Less <==> b.cmp_spec(a) is Greater,
        a.cmp_spec(b) is Equal <==> b.cmp_spec(a) is Equal,
{
}

/// Law: the order is transitive.
pub proof fn lemma_cmp_transitive(a: MetaAddr, b: MetaAddr, c: MetaAddr)
    requires
        a.cmp_spec(b) is Less,
        b.cmp_spec(c) is Less,
    ensures
        a.cmp_spec(c) is Less,
{
}

/// Law: the order is total: it ties only on structurally equal records, so
/// records with distinct endpoints always compare strictly.
pub proof fn lemma_cmp_equal_iff_same(a: MetaAddr, b: MetaAddr)
    ensures
        a.cmp_spec(b) is Equal <==> a == b,
        a.addr != b.addr ==> (a.cmp_spec(b) is Less || a.cmp_spec(b) is Greater),
{
    if a.cmp_spec(b) is Equal {
        assert(a =~= b);
    }
}

} // verus!
