//! Peer records, change events, and the fold that applies a change to a
//! record.

use vstd::prelude::*;

use crate::addr::{canonical_socket_addr, canonical_socket_addr_spec, PeerSocketAddr};
use crate::constants::{
    MAX_PEER_ACTIVE_FOR_GOSSIP, MIN_PEER_RECONNECTION_DELAY, TIMESTAMP_TRUNCATION_SECONDS,
};
use crate::services::{PeerServices, NODE_NETWORK};
use crate::time::{DateTime32, Duration32, LocalInstant};

verus! {

/// Peer connection state: the outcome of our most recent interaction with a
/// peer.
///
/// The variants are declared in reconnection-attempt order, so the derived
/// `Ord` agrees with [`PeerAddrState::rank_spec`](crate::order).
#[derive(Copy, Clone, Debug, PartialEq, Eq, PartialOrd, Ord, Structural)]
pub enum PeerAddrState {
    /// The peer has sent us a valid message, completing a handshake or a
    /// post-handshake exchange.
    Responded,
    /// The peer's address was learned from peer gossip; we have never dialed
    /// it.
    NeverAttemptedGossiped,
    /// The peer's address was the self-address in a counterparty's `Version`
    /// message; we have never dialed it in this role.
    NeverAttemptedAlternate,
    /// The most recent outbound attempt or open connection terminated
    /// abnormally.
    Failed,
    /// An outbound dial to this peer is in progress.
    AttemptPending,
}

impl PeerAddrState {
    /// Whether this is one of the two never-attempted states.
    pub open spec fn is_never_attempted_spec(self) -> bool {
        self is NeverAttemptedGossiped || self is NeverAttemptedAlternate
    }

    /// Whether this is one of the two never-attempted states.
    pub fn is_never_attempted(&self) -> (r: bool)
        ensures
            r == self.is_never_attempted_spec(),
    {
        match self {
            PeerAddrState::NeverAttemptedGossiped | PeerAddrState::NeverAttemptedAlternate => true,
            PeerAddrState::AttemptPending | PeerAddrState::Responded | PeerAddrState::Failed => false,
        }
    }
}

/// An address with metadata on its advertised services and the history of
/// our interactions with it: the central entity of this crate.
#[derive(Copy, Clone, Debug)]
#[verifier::ext_equal]
pub struct MetaAddr {
    /// The peer's canonical endpoint, used as its identity.
    pub addr: PeerSocketAddr,
    /// The services advertised by the peer.
    ///
    /// For a `Responded` peer these were verified by our own handshake; for a
    /// never-attempted peer they are an unverified remote claim.
    pub services: PeerServices,
    /// The unverified last-seen time claimed by the remote peer that gossiped
    /// this address.
    pub untrusted_last_seen: Option<DateTime32>,
    /// The last time we received a message from this peer, by our own clock.
    pub last_response: Option<DateTime32>,
    /// The last time we started an outbound connection attempt to this peer.
    pub last_attempt: Option<LocalInstant>,
    /// The last time an outbound attempt or open connection to this peer
    /// failed.
    pub last_failure: Option<LocalInstant>,
    /// The outcome of our most recent interaction with this peer.
    pub last_connection_state: PeerAddrState,
}

/// One observation about one endpoint: the only way records are created or
/// updated.
///
/// Each variant carries exactly the fields that kind of observation
/// contributes; the times it contributes are sampled by the caller and passed
/// to the functions that consume the change.
#[derive(Copy, Clone, Debug, PartialEq, Eq, Structural)]
#[allow(inconsistent_fields)]
pub enum MetaAddrChange {
    /// An address learned from a peer's address gossip.
    NewGossiped {
        addr: PeerSocketAddr,
        untrusted_services: PeerServices,
        untrusted_last_seen: DateTime32,
    },
    /// The self-address from a counterparty's `Version` message.
    NewAlternate { addr: PeerSocketAddr, untrusted_services: PeerServices },
    /// Our own listener address.
    NewLocal { addr: PeerSocketAddr },
    /// An outbound dial to the peer has just started.
    UpdateAttempt { addr: PeerSocketAddr },
    /// A valid message has just been received from the peer.
    UpdateResponded { addr: PeerSocketAddr, services: PeerServices },
    /// A dial or an open connection to the peer has just failed.
    UpdateFailed { addr: PeerSocketAddr, services: Option<PeerServices> },
}

/// The larger of two optional timestamps, where `None` is below every
/// reading.
pub open spec fn opt_datetime_max(a: Option<DateTime32>, b: Option<DateTime32>) -> Option<
    DateTime32,
> {
    match (a, b) {
        (Some(x), Some(y)) => if x.timestamp >= y.timestamp {
            Some(x)
        } else {
            Some(y)
        },
        (Some(x), None) => Some(x),
        (None, y) => y,
    }
}

/// The larger of two optional instants, where `None` is below every reading.
pub open spec fn opt_instant_max(a: Option<LocalInstant>, b: Option<LocalInstant>) -> Option<
    LocalInstant,
> {
    match (a, b) {
        (Some(x), Some(y)) => if x.millis >= y.millis {
            Some(x)
        } else {
            Some(y)
        },
        (Some(x), None) => Some(x),
        (None, y) => y,
    }
}

/// `a <= b` on optional timestamps, where `None` is below every reading.
pub open spec fn opt_datetime_le(a: Option<DateTime32>, b: Option<DateTime32>) -> bool {
    a matches Some(x) ==> b matches Some(y) && x.timestamp <= y.timestamp
}

/// `a <= b` on optional instants, where `None` is below every reading.
pub open spec fn opt_instant_le(a: Option<LocalInstant>, b: Option<LocalInstant>) -> bool {
    a matches Some(x) ==> b matches Some(y) && x.millis <= y.millis
}

fn datetime_max(a: Option<DateTime32>, b: Option<DateTime32>) -> (r: Option<DateTime32>)
    ensures
        r == opt_datetime_max(a, b),
{
    match (a, b) {
        (Some(x), Some(y)) => if x.timestamp >= y.timestamp {
            Some(x)
        } else {
            Some(y)
        },
        (Some(x), None) => Some(x),
        (None, y) => y,
    }
}

fn instant_max(a: Option<LocalInstant>, b: Option<LocalInstant>) -> (r: Option<LocalInstant>)
    ensures
        r == opt_instant_max(a, b),
{
    match (a, b) {
        (Some(x), Some(y)) => if x.millis >= y.millis {
            Some(x)
        } else {
            Some(y)
        },
        (Some(x), None) => Some(x),
        (None, y) => y,
    }
}

impl MetaAddr {
    /// The record's structural invariant.
    ///
    /// The endpoint is canonical; a `Responded`, `AttemptPending` or `Failed`
    /// state has its witnessing time set; and a never-attempted record has no
    /// local interaction times at all.
    pub open spec fn is_valid(self) -> bool {
        &&& self.addr.is_canonical_spec()
        &&& self.last_connection_state is Responded ==> self.last_response is Some
        &&& self.last_connection_state is AttemptPending ==> self.last_attempt is Some
        &&& self.last_connection_state is Failed ==> self.last_failure is Some
        &&& self.last_connection_state.is_never_attempted_spec() ==> {
            &&& self.last_response is None
            &&& self.last_attempt is None
            &&& self.last_failure is None
        }
    }

    /// A fresh gossiped record, as deserialized from a peer's address
    /// message.
    pub open spec fn new_gossiped_meta_addr_spec(
        addr: PeerSocketAddr,
        untrusted_services: PeerServices,
        untrusted_last_seen: DateTime32,
    ) -> MetaAddr {
        MetaAddr {
            addr: canonical_socket_addr_spec(addr),
            services: untrusted_services,
            untrusted_last_seen: Some(untrusted_last_seen),
            last_response: None,
            last_attempt: None,
            last_failure: None,
            last_connection_state: PeerAddrState::NeverAttemptedGossiped,
        }
    }

    /// Builds a fresh gossiped record, as deserialized from a peer's address
    /// message.
    pub fn new_gossiped_meta_addr(
        addr: PeerSocketAddr,
        untrusted_services: PeerServices,
        untrusted_last_seen: DateTime32,
    ) -> (r: MetaAddr)
        ensures
            r == Self::new_gossiped_meta_addr_spec(addr, untrusted_services, untrusted_last_seen),
            r.is_valid(),
    {
        MetaAddr {
            addr: canonical_socket_addr(addr),
            services: untrusted_services,
            untrusted_last_seen: Some(untrusted_last_seen),
            last_response: None,
            last_attempt: None,
            last_failure: None,
            last_connection_state: PeerAddrState::NeverAttemptedGossiped,
        }
    }

    /// Re-gossips this record: a `NewGossiped` change carrying its claimed
    /// services and last-seen time.
    ///
    /// The record must carry a claimed last-seen time; records that do not
    /// cannot be turned back into gossip.
    pub fn new_gossiped_change(self) -> (r: MetaAddrChange)
        requires
            self.untrusted_last_seen is Some,
        ensures
            r == (MetaAddrChange::NewGossiped {
                addr: canonical_socket_addr_spec(self.addr),
                untrusted_services: self.services,
                untrusted_last_seen: self.untrusted_last_seen->Some_0,
            }),
    {
        let untrusted_last_seen = match self.untrusted_last_seen {
            Some(t) => t,
            None => unreached(),
        };
        MetaAddrChange::NewGossiped {
            addr: canonical_socket_addr(self.addr),
            untrusted_services: self.services,
            untrusted_last_seen,
        }
    }

    /// An `UpdateResponded` change for a peer that has just sent us a valid
    /// message.
    ///
    /// The address must be the remote address of an outbound connection and
    /// the services those of that peer's handshake; otherwise a malicious
    /// peer could interfere with other peers' records.
    pub fn new_responded(addr: &PeerSocketAddr, services: &PeerServices) -> (r: MetaAddrChange)
        ensures
            r == (MetaAddrChange::UpdateResponded {
                addr: canonical_socket_addr_spec(*addr),
                services: *services,
            }),
    {
        MetaAddrChange::UpdateResponded { addr: canonical_socket_addr(*addr), services: *services }
    }

    /// An `UpdateAttempt` change for a peer we are about to dial.
    pub fn new_reconnect(addr: &PeerSocketAddr) -> (r: MetaAddrChange)
        ensures
            r == (MetaAddrChange::UpdateAttempt { addr: canonical_socket_addr_spec(*addr) }),
    {
        MetaAddrChange::UpdateAttempt { addr: canonical_socket_addr(*addr) }
    }

    /// A `NewAlternate` change for a peer's alternate address, received in a
    /// `Version` message.
    pub fn new_alternate(addr: &PeerSocketAddr, untrusted_services: &PeerServices) -> (r:
        MetaAddrChange)
        ensures
            r == (MetaAddrChange::NewAlternate {
                addr: canonical_socket_addr_spec(*addr),
                untrusted_services: *untrusted_services,
            }),
    {
        MetaAddrChange::NewAlternate {
            addr: canonical_socket_addr(*addr),
            untrusted_services: *untrusted_services,
        }
    }

    /// A `NewLocal` change for our own listener address.
    pub fn new_local_listener_change(addr: &PeerSocketAddr) -> (r: MetaAddrChange)
        ensures
            r == (MetaAddrChange::NewLocal { addr: canonical_socket_addr_spec(*addr) }),
    {
        MetaAddrChange::NewLocal { addr: canonical_socket_addr(*addr) }
    }

    /// An `UpdateFailed` change for a peer that has just had an error.
    pub fn new_errored(addr: &PeerSocketAddr, services: Option<PeerServices>) -> (r:
        MetaAddrChange)
        ensures
            r == (MetaAddrChange::UpdateFailed {
                addr: canonical_socket_addr_spec(*addr),
                services,
            }),
    {
        MetaAddrChange::UpdateFailed { addr: canonical_socket_addr(*addr), services }
    }

    /// A change for a peer that has just shut down.
    ///
    /// A shutdown is treated as a failure, whatever state the peer was in.
    pub fn new_shutdown(addr: &PeerSocketAddr, services: Option<PeerServices>) -> (r:
        MetaAddrChange)
        ensures
            r == (MetaAddrChange::UpdateFailed {
                addr: canonical_socket_addr_spec(*addr),
                services,
            }),
    {
        MetaAddr::new_errored(addr, services)
    }

    /// The effective last-seen time: the verified `last_response` when one
    /// exists, else the remote claim.
    pub open spec fn last_seen_spec(self) -> Option<DateTime32> {
        if self.last_response is Some {
            self.last_response
        } else {
            self.untrusted_last_seen
        }
    }

    /// The time of the last successful interaction with this peer: our own
    /// `last_response` when the peer has responded, else the unverified
    /// gossiped claim.
    pub fn last_seen(&self) -> (r: Option<DateTime32>)
        ensures
            r == self.last_seen_spec(),
    {
        if self.last_response.is_some() {
            self.last_response
        } else {
            self.untrusted_last_seen
        }
    }

    /// The peer's canonical endpoint.
    pub fn addr(&self) -> (r: PeerSocketAddr)
        ensures
            r == self.addr,
    {
        self.addr
    }

    /// The services advertised by the peer.
    pub fn services(&self) -> (r: PeerServices)
        ensures
            r == self.services,
    {
        self.services
    }

    /// The outcome of our most recent interaction with this peer.
    pub fn last_connection_state(&self) -> (r: PeerAddrState)
        ensures
            r == self.last_connection_state,
    {
        self.last_connection_state
    }

    /// The unverified last-seen time claimed by the peer that gossiped this
    /// address.
    pub fn untrusted_last_seen(&self) -> (r: Option<DateTime32>)
        ensures
            r == self.untrusted_last_seen,
    {
        self.untrusted_last_seen
    }

    /// The last time we received a message from this peer.
    pub fn last_response(&self) -> (r: Option<DateTime32>)
        ensures
            r == self.last_response,
    {
        self.last_response
    }

    /// Overrides the gossiped last-seen claim.
    pub fn set_untrusted_last_seen(&mut self, untrusted_last_seen: DateTime32)
        ensures
            *final(self) == (MetaAddr {
                untrusted_last_seen: Some(untrusted_last_seen),
                ..*old(self)
            }),
    {
        self.untrusted_last_seen = Some(untrusted_last_seen);
    }

    /// Overrides the last-response time.
    pub fn set_last_response(&mut self, last_response: DateTime32)
        ensures
            *final(self) == (MetaAddr { last_response: Some(last_response), ..*old(self) }),
    {
        self.last_response = Some(last_response);
    }

    /// The last time we started an outbound connection attempt to this peer.
    pub fn last_attempt(&self) -> (r: Option<LocalInstant>)
        ensures
            r == self.last_attempt,
    {
        self.last_attempt
    }

    /// The last time an outbound attempt or open connection to this peer
    /// failed.
    pub fn last_failure(&self) -> (r: Option<LocalInstant>)
        ensures
            r == self.last_failure,
    {
        self.last_failure
    }

    /// Whether the peer responded within the reconnection delay before `now`.
    ///
    /// Future-dated responses count as recent: elapsed time saturates to
    /// zero.
    pub open spec fn recently_responded_spec(self, now: DateTime32) -> bool {
        self.last_response matches Some(t) && t.saturating_elapsed_spec(now)
            <= MIN_PEER_RECONNECTION_DELAY
    }

    /// Whether we have received a message from this peer recently: within the
    /// reconnection delay before `now`.
    pub fn has_connection_recently_responded(&self, now: DateTime32) -> (r: bool)
        ensures
            r == self.recently_responded_spec(now),
    {
        match self.last_response {
            Some(last_response) => {
                last_response.saturating_elapsed(now).seconds <= MIN_PEER_RECONNECTION_DELAY
            },
            None => false,
        }
    }

    /// Whether an outbound attempt was started within the reconnection delay
    /// before `now`.
    pub open spec fn recently_attempted_spec(self, now: LocalInstant) -> bool {
        self.last_attempt matches Some(t) && t.saturating_elapsed_spec(now)
            <= MIN_PEER_RECONNECTION_DELAY * 1000
    }

    /// Whether we started an outbound attempt to this peer recently: within
    /// the reconnection delay before `now`.
    pub fn was_connection_recently_attempted(&self, now: LocalInstant) -> (r: bool)
        ensures
            r == self.recently_attempted_spec(now),
    {
        match self.last_attempt {
            Some(last_attempt) => {
                last_attempt.saturating_elapsed_millis(now) <= (MIN_PEER_RECONNECTION_DELAY as u64)
                    * 1000
            },
            None => false,
        }
    }

    /// Whether a connection failed within the reconnection delay before
    /// `now`.
    pub open spec fn recently_failed_spec(self, now: LocalInstant) -> bool {
        self.last_failure matches Some(t) && t.saturating_elapsed_spec(now)
            <= MIN_PEER_RECONNECTION_DELAY * 1000
    }

    /// Whether a connection to this peer failed recently: within the
    /// reconnection delay before `now`.
    pub fn has_connection_recently_failed(&self, now: LocalInstant) -> (r: bool)
        ensures
            r == self.recently_failed_spec(now),
    {
        match self.last_failure {
            Some(last_failure) => {
                last_failure.saturating_elapsed_millis(now) <= (MIN_PEER_RECONNECTION_DELAY as u64)
                    * 1000
            },
            None => false,
        }
    }

    /// Whether the effective last-seen time is within the gossip liveness
    /// window before `now`.
    pub open spec fn active_for_gossip_spec(self, now: DateTime32) -> bool {
        self.last_seen_spec() matches Some(t) && t.saturating_elapsed_spec(now)
            <= MAX_PEER_ACTIVE_FOR_GOSSIP
    }

    /// Whether this peer has been seen recently enough to be worth gossiping:
    /// its effective last-seen time is within three hours before `now`.
    pub fn is_active_for_gossip(&self, now: DateTime32) -> (r: bool)
        ensures
            r == self.active_for_gossip_spec(now),
    {
        match self.last_seen() {
            Some(last_seen) => {
                last_seen.saturating_elapsed(now).seconds <= MAX_PEER_ACTIVE_FOR_GOSSIP
            },
            None => false,
        }
    }

    /// Whether the endpoint itself can be dialed: a specified IP and a
    /// non-zero port.
    pub open spec fn address_valid_for_outbound_spec(self) -> bool {
        !self.addr.ip.is_unspecified_spec() && self.addr.port != 0
    }

    /// Whether the endpoint we hold for this peer is valid for outbound
    /// connections: its IP is specified and its port is non-zero.
    pub fn address_is_valid_for_outbound(&self) -> (r: bool)
        ensures
            r == self.address_valid_for_outbound_spec(),
    {
        !self.addr.ip.is_unspecified() && self.addr.port != 0
    }

    /// Whether the last known information makes the peer an outbound
    /// candidate: it advertises full network data and its endpoint can be
    /// dialed.
    pub open spec fn last_known_info_valid_for_outbound_spec(self) -> bool {
        self.services.contains_spec(NODE_NETWORK) && self.address_valid_for_outbound_spec()
    }

    /// Whether the last known information for this peer is valid for outbound
    /// connections: it advertises full network data and its endpoint can be
    /// dialed.
    ///
    /// The information may be outdated or an unverified claim, so this check
    /// can only reject candidates, never vouch for one.
    pub fn last_known_info_is_valid_for_outbound(&self) -> (r: bool)
        ensures
            r == self.last_known_info_valid_for_outbound_spec(),
    {
        self.services.contains(NODE_NETWORK) && self.address_is_valid_for_outbound()
    }

    /// Whether this peer is ready for a new outbound attempt at wall-clock
    /// time `now` and monotonic time `now_instant`.
    pub open spec fn ready_for_connection_attempt_spec(
        self,
        now: DateTime32,
        now_instant: LocalInstant,
    ) -> bool {
        &&& self.last_known_info_valid_for_outbound_spec()
        &&& !self.recently_responded_spec(now)
        &&& !self.recently_attempted_spec(now_instant)
        &&& !self.recently_failed_spec(now_instant)
    }

    /// Whether this peer is ready for a new outbound connection attempt: its
    /// last known information is valid for outbound use and it has neither
    /// responded, been attempted, nor failed within the reconnection delay.
    pub fn is_ready_for_connection_attempt(&self, now: DateTime32, now_instant: LocalInstant) -> (r:
        bool)
        ensures
            r == self.ready_for_connection_attempt_spec(now, now_instant),
    {
        self.last_known_info_is_valid_for_outbound()
            && !self.has_connection_recently_responded(now)
            && !self.was_connection_recently_attempted(now_instant)
            && !self.has_connection_recently_failed(now_instant)
    }

    /// The gossipable projection of this record, when one exists.
    ///
    /// The claimed last-seen time is the effective last-seen time rounded
    /// down to a multiple of the truncation interval; every other time field
    /// is cleared and the state reads as freshly gossiped, so no local state
    /// leaks to the recipient.
    pub open spec fn sanitize_spec(self) -> Option<MetaAddr> {
        if !self.last_known_info_valid_for_outbound_spec() {
            None
        } else {
            match self.last_seen_spec() {
                None => None,
                Some(last_seen) => Some(
                    MetaAddr {
                        addr: canonical_socket_addr_spec(self.addr),
                        services: self.services,
                        untrusted_last_seen: Some(
                            DateTime32 {
                                timestamp: (last_seen.timestamp - last_seen.timestamp
                                    % TIMESTAMP_TRUNCATION_SECONDS) as u32,
                            },
                        ),
                        last_response: None,
                        last_attempt: None,
                        last_failure: None,
                        last_connection_state: PeerAddrState::NeverAttemptedGossiped,
                    },
                ),
            }
        }
    }

    /// The sanitized form of this record, for sending to a remote peer, or
    /// `None` if the record should not be gossiped at all.
    pub fn sanitize(&self) -> (r: Option<MetaAddr>)
        ensures
            r == self.sanitize_spec(),
    {
        if !self.last_known_info_is_valid_for_outbound() {
            return None;
        }
        let last_seen = match self.last_seen() {
            Some(last_seen) => last_seen,
            None => {
                return None;
            },
        };
        let remainder = last_seen.timestamp() % TIMESTAMP_TRUNCATION_SECONDS;
        proof {
            vstd::arithmetic::div_mod::lemma_mod_decreases(
                last_seen.timestamp as nat,
                TIMESTAMP_TRUNCATION_SECONDS as nat,
            );
        }
        let truncated = match last_seen.checked_sub(Duration32 { seconds: remainder }) {
            Some(truncated) => truncated,
            None => unreached(),
        };
        Some(
            MetaAddr {
                addr: canonical_socket_addr(self.addr),
                services: self.services,
                untrusted_last_seen: Some(truncated),
                last_response: None,
                last_attempt: None,
                last_failure: None,
                last_connection_state: PeerAddrState::NeverAttemptedGossiped,
            },
        )
    }
}

impl MetaAddrChange {
    /// The endpoint this change is about.
    pub open spec fn addr_spec(self) -> PeerSocketAddr {
        match self {
            MetaAddrChange::NewGossiped { addr, .. } => addr,
            MetaAddrChange::NewAlternate { addr, .. } => addr,
            MetaAddrChange::NewLocal { addr } => addr,
            MetaAddrChange::UpdateAttempt { addr } => addr,
            MetaAddrChange::UpdateResponded { addr, .. } => addr,
            MetaAddrChange::UpdateFailed { addr, .. } => addr,
        }
    }

    /// The endpoint this change is about.
    pub fn addr(&self) -> (r: PeerSocketAddr)
        ensures
            r == self.addr_spec(),
    {
        match self {
            MetaAddrChange::NewGossiped { addr, .. } => *addr,
            MetaAddrChange::NewAlternate { addr, .. } => *addr,
            MetaAddrChange::NewLocal { addr } => *addr,
            MetaAddrChange::UpdateAttempt { addr } => *addr,
            MetaAddrChange::UpdateResponded { addr, .. } => *addr,
            MetaAddrChange::UpdateFailed { addr, .. } => *addr,
        }
    }

    /// This change redirected to the endpoint `new_addr`.
    pub open spec fn with_addr_spec(self, new_addr: PeerSocketAddr) -> MetaAddrChange {
        match self {
            MetaAddrChange::NewGossiped { untrusted_services, untrusted_last_seen, .. } => {
                MetaAddrChange::NewGossiped {
                    addr: new_addr,
                    untrusted_services,
                    untrusted_last_seen,
                }
            },
            MetaAddrChange::NewAlternate { untrusted_services, .. } => {
                MetaAddrChange::NewAlternate { addr: new_addr, untrusted_services }
            },
            MetaAddrChange::NewLocal { .. } => MetaAddrChange::NewLocal { addr: new_addr },
            MetaAddrChange::UpdateAttempt { .. } => MetaAddrChange::UpdateAttempt {
                addr: new_addr,
            },
            MetaAddrChange::UpdateResponded { services, .. } => MetaAddrChange::UpdateResponded {
                addr: new_addr,
                services,
            },
            MetaAddrChange::UpdateFailed { services, .. } => MetaAddrChange::UpdateFailed {
                addr: new_addr,
                services,
            },
        }
    }

    /// Redirects this change to the endpoint `new_addr`, keeping every other
    /// field.
    pub fn set_addr(&mut self, new_addr: PeerSocketAddr)
        ensures
            *final(self) == old(self).with_addr_spec(new_addr),
    {
        let redirected = match *self {
            MetaAddrChange::NewGossiped { untrusted_services, untrusted_last_seen, .. } => {
                MetaAddrChange::NewGossiped {
                    addr: new_addr,
                    untrusted_services,
                    untrusted_last_seen,
                }
            },
            MetaAddrChange::NewAlternate { untrusted_services, .. } => {
                MetaAddrChange::NewAlternate { addr: new_addr, untrusted_services }
            },
            MetaAddrChange::NewLocal { .. } => MetaAddrChange::NewLocal { addr: new_addr },
            MetaAddrChange::UpdateAttempt { .. } => MetaAddrChange::UpdateAttempt {
                addr: new_addr,
            },
            MetaAddrChange::UpdateResponded { services, .. } => MetaAddrChange::UpdateResponded {
                addr: new_addr,
                services,
            },
            MetaAddrChange::UpdateFailed { services, .. } => MetaAddrChange::UpdateFailed {
                addr: new_addr,
                services,
            },
        };
        *self = redirected;
    }

    /// The services this change contributes, if any.
    ///
    /// A `NewLocal` change implicitly asserts full network data for our own
    /// listener; an `UpdateAttempt` contributes none.
    pub open spec fn untrusted_services_spec(self) -> Option<PeerServices> {
        match self {
            MetaAddrChange::NewGossiped { untrusted_services, .. } => Some(untrusted_services),
            MetaAddrChange::NewAlternate { untrusted_services, .. } => Some(untrusted_services),
            MetaAddrChange::NewLocal { .. } => Some(PeerServices { bits: NODE_NETWORK }),
            MetaAddrChange::UpdateAttempt { .. } => None,
            MetaAddrChange::UpdateResponded { services, .. } => Some(services),
            MetaAddrChange::UpdateFailed { services, .. } => services,
        }
    }

    /// The services this change contributes, if any.
    pub fn untrusted_services(&self) -> (r: Option<PeerServices>)
        ensures
            r == self.untrusted_services_spec(),
    {
        match self {
            MetaAddrChange::NewGossiped { untrusted_services, .. } => Some(*untrusted_services),
            MetaAddrChange::NewAlternate { untrusted_services, .. } => Some(*untrusted_services),
            MetaAddrChange::NewLocal { .. } => Some(PeerServices { bits: NODE_NETWORK }),
            MetaAddrChange::UpdateAttempt { .. } => None,
            MetaAddrChange::UpdateResponded { services, .. } => Some(*services),
            MetaAddrChange::UpdateFailed { services, .. } => *services,
        }
    }

    /// The claimed last-seen time this change contributes, if any, when
    /// applied at wall-clock time `now`.
    ///
    /// Our own listener is known to be up right now, so a `NewLocal` change
    /// contributes `now` itself.
    pub open spec fn untrusted_last_seen_spec(self, now: DateTime32) -> Option<DateTime32> {
        match self {
            MetaAddrChange::NewGossiped { untrusted_last_seen, .. } => Some(untrusted_last_seen),
            MetaAddrChange::NewLocal { .. } => Some(now),
            _ => None,
        }
    }

    /// The claimed last-seen time this change contributes, if any, when
    /// applied at wall-clock time `now`.
    pub fn untrusted_last_seen(&self, now: DateTime32) -> (r: Option<DateTime32>)
        ensures
            r == self.untrusted_last_seen_spec(now),
    {
        match self {
            MetaAddrChange::NewGossiped { untrusted_last_seen, .. } => Some(*untrusted_last_seen),
            MetaAddrChange::NewLocal { .. } => Some(now),
            _ => None,
        }
    }

    /// The attempt time this change contributes, if any, when applied at
    /// monotonic time `now_instant`.
    ///
    /// Attempt changes are applied just before the dial starts, so the
    /// contribution is `now_instant` itself.
    pub open spec fn last_attempt_spec(self, now_instant: LocalInstant) -> Option<LocalInstant> {
        match self {
            MetaAddrChange::UpdateAttempt { .. } => Some(now_instant),
            _ => None,
        }
    }

    /// The attempt time this change contributes, if any, when applied at
    /// monotonic time `now_instant`.
    pub fn last_attempt(&self, now_instant: LocalInstant) -> (r: Option<LocalInstant>)
        ensures
            r == self.last_attempt_spec(now_instant),
    {
        match self {
            MetaAddrChange::UpdateAttempt { .. } => Some(now_instant),
            _ => None,
        }
    }

    /// The response time this change contributes, if any, when applied at
    /// wall-clock time `now`.
    pub open spec fn last_response_spec(self, now: DateTime32) -> Option<DateTime32> {
        match self {
            MetaAddrChange::UpdateResponded { .. } => Some(now),
            _ => None,
        }
    }

    /// The response time this change contributes, if any, when applied at
    /// wall-clock time `now`.
    pub fn last_response(&self, now: DateTime32) -> (r: Option<DateTime32>)
        ensures
            r == self.last_response_spec(now),
    {
        match self {
            MetaAddrChange::UpdateResponded { .. } => Some(now),
            _ => None,
        }
    }

    /// The failure time this change contributes, if any, when applied at
    /// monotonic time `now_instant`.
    pub open spec fn last_failure_spec(self, now_instant: LocalInstant) -> Option<LocalInstant> {
        match self {
            MetaAddrChange::UpdateFailed { .. } => Some(now_instant),
            _ => None,
        }
    }

    /// The failure time this change contributes, if any, when applied at
    /// monotonic time `now_instant`.
    pub fn last_failure(&self, now_instant: LocalInstant) -> (r: Option<LocalInstant>)
        ensures
            r == self.last_failure_spec(now_instant),
    {
        match self {
            MetaAddrChange::UpdateFailed { .. } => Some(now_instant),
            _ => None,
        }
    }

    /// The peer state this change implies.
    ///
    /// A local listener reads as freshly gossiped: it is sanitized before it
    /// is ever exposed, so the label does not matter.
    pub open spec fn peer_addr_state_spec(self) -> PeerAddrState {
        match self {
            MetaAddrChange::NewGossiped { .. } => PeerAddrState::NeverAttemptedGossiped,
            MetaAddrChange::NewAlternate { .. } => PeerAddrState::NeverAttemptedAlternate,
            MetaAddrChange::NewLocal { .. } => PeerAddrState::NeverAttemptedGossiped,
            MetaAddrChange::UpdateAttempt { .. } => PeerAddrState::AttemptPending,
            MetaAddrChange::UpdateResponded { .. } => PeerAddrState::Responded,
            MetaAddrChange::UpdateFailed { .. } => PeerAddrState::Failed,
        }
    }

    /// The peer state this change implies.
    pub fn peer_addr_state(&self) -> (r: PeerAddrState)
        ensures
            r == self.peer_addr_state_spec(),
    {
        match self {
            MetaAddrChange::NewGossiped { .. } => PeerAddrState::NeverAttemptedGossiped,
            MetaAddrChange::NewAlternate { .. } => PeerAddrState::NeverAttemptedAlternate,
            MetaAddrChange::NewLocal { .. } => PeerAddrState::NeverAttemptedGossiped,
            MetaAddrChange::UpdateAttempt { .. } => PeerAddrState::AttemptPending,
            MetaAddrChange::UpdateResponded { .. } => PeerAddrState::Responded,
            MetaAddrChange::UpdateFailed { .. } => PeerAddrState::Failed,
        }
    }

    /// Whether this change can create a record on its own.
    pub open spec fn is_new_spec(self) -> bool {
        match self {
            MetaAddrChange::NewGossiped { .. }
            | MetaAddrChange::NewAlternate { .. }
            | MetaAddrChange::NewLocal { .. } => true,
            _ => false,
        }
    }

    /// The fresh record this change creates when applied at wall-clock time
    /// `now` with no previous record, or `None` for an update change.
    pub open spec fn into_new_meta_addr_spec(self, now: DateTime32) -> Option<MetaAddr> {
        if self.is_new_spec() {
            Some(
                MetaAddr {
                    addr: self.addr_spec(),
                    services: self.untrusted_services_spec()->Some_0,
                    untrusted_last_seen: self.untrusted_last_seen_spec(now),
                    last_response: None,
                    last_attempt: None,
                    last_failure: None,
                    last_connection_state: self.peer_addr_state_spec(),
                },
            )
        } else {
            None
        }
    }

    /// The fresh record this change creates when applied at wall-clock time
    /// `now`, or `None` for an update change, which needs a previous record.
    pub fn into_new_meta_addr(self, now: DateTime32) -> (r: Option<MetaAddr>)
        ensures
            r == self.into_new_meta_addr_spec(now),
    {
        match self {
            MetaAddrChange::NewGossiped { .. }
            | MetaAddrChange::NewAlternate { .. }
            | MetaAddrChange::NewLocal { .. } => {
                let services = match self.untrusted_services() {
                    Some(services) => services,
                    None => unreached(),
                };
                Some(
                    MetaAddr {
                        addr: self.addr(),
                        services,
                        untrusted_last_seen: self.untrusted_last_seen(now),
                        last_response: None,
                        last_attempt: None,
                        last_failure: None,
                        last_connection_state: self.peer_addr_state(),
                    },
                )
            },
            MetaAddrChange::UpdateAttempt { .. }
            | MetaAddrChange::UpdateResponded { .. }
            | MetaAddrChange::UpdateFailed { .. } => None,
        }
    }

    /// The change-application fold: the record that results from applying
    /// this change to `previous` at wall-clock time `now` and monotonic time
    /// `now_instant`, or `None` when the change is rejected.
    ///
    /// With no previous record, a `New…` change creates a record and an
    /// update is rejected. Over a previous record:
    /// - a `New…` change against an attempted record is rejected, so gossip
    ///   cannot reorder peers we have started interacting with;
    /// - a `New…` change against a never-attempted record keeps the original
    ///   services and claimed last-seen time (filling the claim only when it
    ///   was absent), so repeated gossip cannot churn the record;
    /// - an update merges each time field by pointwise maximum, so changes
    ///   applied out of order never move a time backward, takes the updated
    ///   services when the change carries any, and adopts the change's state.
    pub open spec fn apply_spec(
        self,
        previous: Option<MetaAddr>,
        now: DateTime32,
        now_instant: LocalInstant,
    ) -> Option<MetaAddr> {
        match previous {
            None => self.into_new_meta_addr_spec(now),
            Some(previous) => {
                if self.is_new_spec() {
                    if !previous.last_connection_state.is_never_attempted_spec() {
                        None
                    } else {
                        Some(
                            MetaAddr {
                                addr: self.addr_spec(),
                                services: previous.services,
                                untrusted_last_seen: if previous.untrusted_last_seen is Some {
                                    previous.untrusted_last_seen
                                } else {
                                    self.untrusted_last_seen_spec(now)
                                },
                                last_response: None,
                                last_attempt: None,
                                last_failure: None,
                                last_connection_state: self.peer_addr_state_spec(),
                            },
                        )
                    }
                } else {
                    Some(
                        MetaAddr {
                            addr: self.addr_spec(),
                            services: match self.untrusted_services_spec() {
                                Some(services) => services,
                                None => previous.services,
                            },
                            untrusted_last_seen: previous.untrusted_last_seen,
                            last_response: opt_datetime_max(
                                self.last_response_spec(now),
                                previous.last_response,
                            ),
                            last_attempt: opt_instant_max(
                                self.last_attempt_spec(now_instant),
                                previous.last_attempt,
                            ),
                            last_failure: opt_instant_max(
                                self.last_failure_spec(now_instant),
                                previous.last_failure,
                            ),
                            last_connection_state: self.peer_addr_state_spec(),
                        },
                    )
                }
            },
        }
    }

    /// Applies this change to a previous record from the address book at
    /// wall-clock time `now` and monotonic time `now_instant`, producing the
    /// new or updated record, or `None` when the change is rejected.
    ///
    /// A present previous record must be for this change's endpoint: records
    /// are keyed by endpoint, so a mismatch is a caller bug.
    pub fn apply_to_meta_addr(
        &self,
        previous: Option<MetaAddr>,
        now: DateTime32,
        now_instant: LocalInstant,
    ) -> (r: Option<MetaAddr>)
        requires
            previous matches Some(p) ==> p.addr == self.addr_spec(),
        ensures
            r == self.apply_spec(previous, now, now_instant),
    {
        let previous = match previous {
            Some(previous) => previous,
            None => {
                return self.into_new_meta_addr(now);
            },
        };
        let change_to_never_attempted = self.is_new();
        let previous_has_been_attempted = !previous.last_connection_state.is_never_attempted();

        if change_to_never_attempted {
            if previous_has_been_attempted {
                // Gossip about a peer we have already begun interacting with
                // must not reset its history or its place in the dial queue.
                None
            } else {
                Some(
                    MetaAddr {
                        addr: self.addr(),
                        services: previous.services,
                        untrusted_last_seen: match previous.untrusted_last_seen {
                            Some(t) => Some(t),
                            None => self.untrusted_last_seen(now),
                        },
                        last_response: None,
                        last_attempt: None,
                        last_failure: None,
                        last_connection_state: self.peer_addr_state(),
                    },
                )
            }
        } else {
            Some(
                MetaAddr {
                    addr: self.addr(),
                    services: match self.untrusted_services() {
                        Some(services) => services,
                        None => previous.services,
                    },
                    untrusted_last_seen: previous.untrusted_last_seen,
                    last_response: datetime_max(self.last_response(now), previous.last_response),
                    last_attempt: instant_max(
                        self.last_attempt(now_instant),
                        previous.last_attempt,
                    ),
                    last_failure: instant_max(
                        self.last_failure(now_instant),
                        previous.last_failure,
                    ),
                    last_connection_state: self.peer_addr_state(),
                },
            )
        }
    }

    /// Whether this change can create a record on its own.
    pub fn is_new(&self) -> (r: bool)
        ensures
            r == self.is_new_spec(),
    {
        match self {
            MetaAddrChange::NewGossiped { .. }
            | MetaAddrChange::NewAlternate { .. }
            | MetaAddrChange::NewLocal { .. } => true,
            _ => false,
        }
    }
}

impl Default for PeerAddrState {
    /// The state of an address nothing is known about yet: freshly gossiped.
    fn default() -> (r: Self)
        ensures
            r is NeverAttemptedGossiped,
    {
        PeerAddrState::NeverAttemptedGossiped
    }
}

/// The fold as the address book runs it: a rejected change leaves the
/// previous record (or its absence) in place.
pub open spec fn apply_or_keep(
    change: MetaAddrChange,
    previous: Option<MetaAddr>,
    now: DateTime32,
    now_instant: LocalInstant,
) -> Option<MetaAddr> {
    match change.apply_spec(previous, now, now_instant) {
        Some(next) => Some(next),
        None => previous,
    }
}

/// Law: the fold preserves the record invariant.
///
/// Whenever applying a change to a valid record (or to no record) produces a
/// record at all, that record is valid: its endpoint is canonical, a
/// `Responded` state has `last_response` set (likewise `AttemptPending` with
/// `last_attempt` and `Failed` with `last_failure`), and a never-attempted
/// record has no local interaction times.
pub proof fn lemma_apply_preserves_validity(
    change: MetaAddrChange,
    previous: Option<MetaAddr>,
    now: DateTime32,
    now_instant: LocalInstant,
)
    requires
        change.addr_spec().is_canonical_spec(),
        previous matches Some(p) ==> p.is_valid(),
    ensures
        change.apply_spec(previous, now, now_instant) matches Some(next) ==> next.is_valid(),
{
}

/// Law: the fold never moves a time field backward.
///
/// Whenever applying a change to a valid record produces a record, each of
/// `last_response`, `last_attempt` and `last_failure` is at least the
/// previous record's value of that field.
pub proof fn lemma_apply_never_rewinds_times(
    change: MetaAddrChange,
    previous: MetaAddr,
    now: DateTime32,
    now_instant: LocalInstant,
)
    requires
        previous.is_valid(),
    ensures
        change.apply_spec(Some(previous), now, now_instant) matches Some(next) ==> {
            &&& opt_datetime_le(previous.last_response, next.last_response)
            &&& opt_instant_le(previous.last_attempt, next.last_attempt)
            &&& opt_instant_le(previous.last_failure, next.last_failure)
        },
{
}

/// Law: the fold commutes on time fields.
///
/// Applied to a valid record for their shared endpoint, two changes reach
/// the same `last_response`, `last_attempt` and `last_failure` in either
/// order, each change keeping its own sampled times. The state label is the
/// one field that depends on the order, which is why the schedulers rely on
/// the time fields, not the label, for recency decisions.
pub proof fn lemma_apply_commutes_on_times(
    change_a: MetaAddrChange,
    now_a: DateTime32,
    instant_a: LocalInstant,
    change_b: MetaAddrChange,
    now_b: DateTime32,
    instant_b: LocalInstant,
    previous: MetaAddr,
)
    requires
        previous.is_valid(),
        change_a.addr_spec() == previous.addr,
        change_b.addr_spec() == previous.addr,
    ensures
        ({
            let a_then_b = apply_or_keep(
                change_b,
                apply_or_keep(change_a, Some(previous), now_a, instant_a),
                now_b,
                instant_b,
            );
            let b_then_a = apply_or_keep(
                change_a,
                apply_or_keep(change_b, Some(previous), now_b, instant_b),
                now_a,
                instant_a,
            );
            &&& a_then_b is Some
            &&& b_then_a is Some
            &&& a_then_b->Some_0.last_response == b_then_a->Some_0.last_response
            &&& a_then_b->Some_0.last_attempt == b_then_a->Some_0.last_attempt
            &&& a_then_b->Some_0.last_failure == b_then_a->Some_0.last_failure
            &&& !change_a.is_new_spec() && !change_b.is_new_spec()
                ==> a_then_b->Some_0.untrusted_last_seen == b_then_a->Some_0.untrusted_last_seen
        }),
{
}

/// Law: sanitization leaks no local state.
///
/// A sanitized record has every local time field cleared, reads as freshly
/// gossiped, and claims a last-seen time that is a multiple of the
/// truncation interval, so the recipient cannot recover when we actually
/// heard from the peer.
pub proof fn lemma_sanitize_hides_local_state(record: MetaAddr)
    ensures
        record.sanitize_spec() matches Some(s) ==> {
            &&& s.last_response is None
            &&& s.last_attempt is None
            &&& s.last_failure is None
            &&& s.last_connection_state is NeverAttemptedGossiped
            &&& s.untrusted_last_seen matches Some(t) && t.timestamp
                % TIMESTAMP_TRUNCATION_SECONDS == 0
        },
{
    if record.sanitize_spec() is Some && record.last_seen_spec() is Some {
        let x = record.last_seen_spec()->Some_0.timestamp as int;
        let m = TIMESTAMP_TRUNCATION_SECONDS as int;
        vstd::arithmetic::div_mod::lemma_fundamental_div_mod(x, m);
        vstd::arithmetic::div_mod::lemma_mod_decreases(x as nat, m as nat);
        vstd::arithmetic::div_mod::lemma_mod_multiples_basic(x / m, m);
        assert((x / m) * m == m * (x / m)) by (nonlinear_arith);
    }
}

} // verus!
