//! Tests of record creation, change application, the scheduler predicates,
//! and sanitization.

use zebra_network::addr::{PeerIp, PeerSocketAddr};
use zebra_network::constants::MIN_PEER_RECONNECTION_DELAY;
use zebra_network::meta_addr::{MetaAddr, MetaAddrChange, PeerAddrState};
use zebra_network::services::{PeerServices, NODE_NETWORK};
use zebra_network::time::{DateTime32, LocalInstant};

fn test_addr() -> PeerSocketAddr {
    PeerSocketAddr { ip: PeerIp::v4_from_octets(192, 0, 2, 1), port: 8233 }
}

fn node_services() -> PeerServices {
    PeerServices { bits: NODE_NETWORK }
}

fn dt(timestamp: u32) -> DateTime32 {
    DateTime32 { timestamp }
}

fn inst(millis: u64) -> LocalInstant {
    LocalInstant { millis }
}

/// A fresh gossiped record is never-attempted and carries no local times.
#[test]
fn gossiped_record_is_never_attempted() {
    let rec = MetaAddr::new_gossiped_meta_addr(test_addr(), node_services(), dt(1_000_000));
    assert_eq!(rec.last_connection_state(), PeerAddrState::NeverAttemptedGossiped);
    assert!(rec.last_connection_state().is_never_attempted());
    assert_eq!(rec.untrusted_last_seen(), Some(dt(1_000_000)));
    assert_eq!(rec.last_response(), None);
    assert_eq!(rec.last_attempt(), None);
    assert_eq!(rec.last_failure(), None);
}

/// Gossip about a peer we have begun interacting with is rejected, so it
/// cannot reset the peer's history or its place in the dial queue.
#[test]
fn never_attempted_churn_rejection() {
    let addr = test_addr();
    let p = MetaAddr::new_gossiped_meta_addr(addr, node_services(), dt(1_000_000));

    let attempt = MetaAddr::new_reconnect(&addr);
    let attempted = attempt
        .apply_to_meta_addr(Some(p), dt(1_500_000), inst(50))
        .expect("update over a never-attempted record applies");
    assert_eq!(attempted.last_connection_state(), PeerAddrState::AttemptPending);
    assert_eq!(attempted.last_attempt(), Some(inst(50)));

    let gossip = MetaAddrChange::NewGossiped {
        addr,
        untrusted_services: node_services(),
        untrusted_last_seen: dt(2_000_000),
    };
    let rejected = gossip.apply_to_meta_addr(Some(attempted), dt(1_600_000), inst(60));
    assert_eq!(rejected, None);
}

/// Updates applied out of order never move `last_response` backward.
#[test]
fn out_of_order_update_merge() {
    let addr = test_addr();
    let create = MetaAddrChange::NewGossiped {
        addr,
        untrusted_services: node_services(),
        untrusted_last_seen: dt(500_000),
    };
    let rec = create
        .apply_to_meta_addr(None, dt(500_000), inst(0))
        .expect("a gossiped change creates a record");

    let t1 = dt(1_000_000);
    let t0 = dt(900_000);
    let responded = MetaAddr::new_responded(&addr, &node_services());

    let first = responded
        .apply_to_meta_addr(Some(rec), t1, inst(10))
        .expect("responded update applies");
    assert_eq!(first.last_connection_state(), PeerAddrState::Responded);
    assert_eq!(first.last_response(), Some(t1));

    // A second response whose sampled clock reads earlier (out-of-order
    // delivery) must not rewind the field.
    let second = responded
        .apply_to_meta_addr(Some(first), t0, inst(20))
        .expect("responded update applies");
    assert_eq!(second.last_response(), Some(t1));
}

/// An update change needs a prior record.
#[test]
fn update_without_prior_record_is_rejected() {
    let addr = test_addr();
    let responded = MetaAddr::new_responded(&addr, &node_services());
    assert_eq!(responded.apply_to_meta_addr(None, dt(1), inst(1)), None);
    let attempt = MetaAddr::new_reconnect(&addr);
    assert_eq!(attempt.apply_to_meta_addr(None, dt(1), inst(1)), None);
    let failed = MetaAddr::new_errored(&addr, None);
    assert_eq!(failed.apply_to_meta_addr(None, dt(1), inst(1)), None);
}

/// Later gossip about a never-attempted peer cannot churn its fields: the
/// original services and claimed last-seen time stay, only the state label
/// follows the change.
#[test]
fn never_attempted_merge_is_conservative() {
    let addr = test_addr();
    let p = MetaAddr::new_gossiped_meta_addr(addr, node_services(), dt(700_000));
    let alternate = MetaAddr::new_alternate(&addr, &PeerServices { bits: 0xff });
    let merged = alternate
        .apply_to_meta_addr(Some(p), dt(800_000), inst(5))
        .expect("never-attempted gossip merges over a never-attempted record");
    assert_eq!(merged.last_connection_state(), PeerAddrState::NeverAttemptedAlternate);
    // Services and claimed last-seen time are kept from the existing record.
    assert_eq!(merged.services(), node_services());
    assert_eq!(merged.untrusted_last_seen(), Some(dt(700_000)));
    assert_eq!(merged.last_response(), None);
    assert_eq!(merged.last_attempt(), None);
    assert_eq!(merged.last_failure(), None);
}

/// A failure update sets the failure time and state, and keeps the claimed
/// last-seen time untouched.
#[test]
fn failure_update_sets_failure_time() {
    let addr = test_addr();
    let p = MetaAddr::new_gossiped_meta_addr(addr, node_services(), dt(700_000));
    let shutdown = MetaAddr::new_shutdown(&addr, None);
    let failed = shutdown
        .apply_to_meta_addr(Some(p), dt(900_000), inst(77))
        .expect("failure update applies");
    assert_eq!(failed.last_connection_state(), PeerAddrState::Failed);
    assert_eq!(failed.last_failure(), Some(inst(77)));
    assert_eq!(failed.untrusted_last_seen(), Some(dt(700_000)));
    // Updated services win when the change carries them.
    let errored = MetaAddr::new_errored(&addr, Some(PeerServices { bits: 0 }));
    let failed_again = errored
        .apply_to_meta_addr(Some(failed), dt(901_000), inst(99))
        .expect("failure update applies");
    assert_eq!(failed_again.services(), PeerServices { bits: 0 });
    assert_eq!(failed_again.last_failure(), Some(inst(99)));
}

/// Timestamp fields reach the same values whichever order two updates are
/// applied in.
#[test]
fn updates_commute_on_time_fields() {
    let addr = test_addr();
    let p = MetaAddr::new_gossiped_meta_addr(addr, node_services(), dt(500_000));
    let responded = MetaAddr::new_responded(&addr, &node_services());
    let attempt = MetaAddr::new_reconnect(&addr);

    let one = responded
        .apply_to_meta_addr(Some(p), dt(600_000), inst(10))
        .and_then(|q| attempt.apply_to_meta_addr(Some(q), dt(650_000), inst(20)))
        .expect("both updates apply");
    let two = attempt
        .apply_to_meta_addr(Some(p), dt(650_000), inst(20))
        .and_then(|q| responded.apply_to_meta_addr(Some(q), dt(600_000), inst(10)))
        .expect("both updates apply");

    assert_eq!(one.last_response(), two.last_response());
    assert_eq!(one.last_attempt(), two.last_attempt());
    assert_eq!(one.last_failure(), two.last_failure());
}

/// An unspecified IP or a zero port disqualifies a peer from outbound use.
#[test]
fn outbound_validity() {
    let unspecified = MetaAddr::new_gossiped_meta_addr(
        PeerSocketAddr { ip: PeerIp::v4_from_octets(0, 0, 0, 0), port: 8233 },
        node_services(),
        dt(1_000_000),
    );
    assert!(!unspecified.address_is_valid_for_outbound());
    assert!(!unspecified.is_ready_for_connection_attempt(dt(2_000_000), inst(1)));

    let zero_port = MetaAddr::new_gossiped_meta_addr(
        PeerSocketAddr { ip: PeerIp::v4_from_octets(192, 0, 2, 1), port: 0 },
        node_services(),
        dt(1_000_000),
    );
    assert!(!zero_port.address_is_valid_for_outbound());
    assert!(!zero_port.is_ready_for_connection_attempt(dt(2_000_000), inst(1)));

    let no_network_bit = MetaAddr::new_gossiped_meta_addr(
        test_addr(),
        PeerServices { bits: 0x8 },
        dt(1_000_000),
    );
    assert!(no_network_bit.address_is_valid_for_outbound());
    assert!(!no_network_bit.last_known_info_is_valid_for_outbound());
    assert!(!no_network_bit.is_ready_for_connection_attempt(dt(2_000_000), inst(1)));

    let good = MetaAddr::new_gossiped_meta_addr(test_addr(), node_services(), dt(1_000_000));
    assert!(good.last_known_info_is_valid_for_outbound());
    assert!(good.is_ready_for_connection_attempt(dt(2_000_000), inst(1)));
}

/// The recency predicates compare elapsed time against the reconnection
/// delay, and treat future-dated times as recent.
#[test]
fn recency_predicates() {
    let addr = test_addr();
    let p = MetaAddr::new_gossiped_meta_addr(addr, node_services(), dt(1_000));
    let responded = MetaAddr::new_responded(&addr, &node_services());
    let rec = responded
        .apply_to_meta_addr(Some(p), dt(10_000), inst(0))
        .expect("responded update applies");

    let delay = MIN_PEER_RECONNECTION_DELAY;
    // Inside the window, at its edge, and one second past it.
    assert!(rec.has_connection_recently_responded(dt(10_000)));
    assert!(rec.has_connection_recently_responded(dt(10_000 + delay)));
    assert!(!rec.has_connection_recently_responded(dt(10_000 + delay + 1)));
    // A future-dated response saturates to zero elapsed: recent.
    assert!(rec.has_connection_recently_responded(dt(9_000)));

    assert!(!rec.is_ready_for_connection_attempt(dt(10_000 + delay), inst(1)));
    assert!(rec.is_ready_for_connection_attempt(dt(10_000 + delay + 1), inst(1)));

    let attempt = MetaAddr::new_reconnect(&addr);
    let attempted = attempt
        .apply_to_meta_addr(Some(rec), dt(10_000), inst(5_000))
        .expect("attempt update applies");
    let delay_millis = u64::from(delay) * 1000;
    assert!(attempted.was_connection_recently_attempted(inst(5_000 + delay_millis)));
    assert!(!attempted.was_connection_recently_attempted(inst(5_001 + delay_millis)));
}

/// A peer is active for gossip within three hours of its effective
/// last-seen time.
#[test]
fn gossip_liveness_window() {
    let three_hours = 3 * 60 * 60;
    let rec = MetaAddr::new_gossiped_meta_addr(test_addr(), node_services(), dt(100_000));
    assert!(rec.is_active_for_gossip(dt(100_000 + three_hours)));
    assert!(!rec.is_active_for_gossip(dt(100_000 + three_hours + 1)));

    // Never seen at all: not gossipable.
    let silent = MetaAddr {
        untrusted_last_seen: None,
        ..rec
    };
    assert!(!silent.is_active_for_gossip(dt(100_000)));

    // The verified last_response wins over the untrusted claim.
    let mut heard_from = rec;
    heard_from.set_last_response(dt(200_000));
    assert_eq!(heard_from.last_seen(), Some(dt(200_000)));
    assert!(heard_from.is_active_for_gossip(dt(200_000 + three_hours)));
}

/// The gossiped last-seen claim can be overridden in place.
#[test]
fn set_untrusted_last_seen_overrides_claim() {
    let mut rec = MetaAddr::new_gossiped_meta_addr(test_addr(), node_services(), dt(100));
    rec.set_untrusted_last_seen(dt(999));
    assert_eq!(rec.untrusted_last_seen(), Some(dt(999)));
    assert_eq!(rec.last_seen(), Some(dt(999)));
}

/// Every applied update leaves each time field at least where it was.
#[test]
fn applied_updates_never_rewind_times() {
    let addr = test_addr();
    let p = MetaAddr::new_gossiped_meta_addr(addr, node_services(), dt(500));
    let mut current = p;
    let steps = [
        (MetaAddr::new_reconnect(&addr), dt(1_000), inst(10)),
        (MetaAddr::new_responded(&addr, &node_services()), dt(2_000), inst(20)),
        (MetaAddr::new_errored(&addr, None), dt(1_500), inst(15)),
        (MetaAddr::new_reconnect(&addr), dt(3_000), inst(5)),
    ];
    for (change, now, now_instant) in steps {
        let next = change
            .apply_to_meta_addr(Some(current), now, now_instant)
            .expect("updates over an existing record apply");
        assert!(next.last_response() >= current.last_response());
        assert!(next.last_attempt() >= current.last_attempt());
        assert!(next.last_failure() >= current.last_failure());
        current = next;
    }
}

/// Sanitization truncates the effective last-seen time down to a multiple
/// of the truncation interval.
#[test]
fn sanitization_truncation() {
    let mut rec = MetaAddr::new_gossiped_meta_addr(test_addr(), node_services(), dt(1));
    rec.set_last_response(dt(1_234_567));
    let s = rec.sanitize().expect("valid record sanitizes");
    // 1_234_567 - (1_234_567 % 1800) = 1_234_567 - 1567
    assert_eq!(s.untrusted_last_seen(), Some(dt(1_233_000)));
    assert_eq!(s.untrusted_last_seen().unwrap().timestamp() % 1800, 0);
    assert_eq!(s.last_response(), None);
    assert_eq!(s.last_attempt(), None);
    assert_eq!(s.last_failure(), None);
    assert_eq!(s.last_connection_state(), PeerAddrState::NeverAttemptedGossiped);
    assert_eq!(s.services(), rec.services());
    assert_eq!(s.addr(), rec.addr());
}

/// Records that must not be gossiped sanitize to nothing.
#[test]
fn sanitization_rejects_unusable_records() {
    // No last-seen time at all.
    let rec = MetaAddr::new_gossiped_meta_addr(test_addr(), node_services(), dt(9));
    let silent = MetaAddr {
        untrusted_last_seen: None,
        ..rec
    };
    assert_eq!(silent.sanitize(), None);
    // No NODE_NETWORK bit.
    let no_network = MetaAddr::new_gossiped_meta_addr(
        test_addr(),
        PeerServices { bits: 0 },
        dt(1_000_000),
    );
    assert_eq!(no_network.sanitize(), None);
    // Unspecified address.
    let unspecified = MetaAddr::new_gossiped_meta_addr(
        PeerSocketAddr { ip: PeerIp::V6(0), port: 8233 },
        node_services(),
        dt(1_000_000),
    );
    assert_eq!(unspecified.sanitize(), None);
}

/// The state label follows the latest applied update, and each witnessing
/// time is set when its state is reached.
#[test]
fn state_witness_times() {
    let addr = test_addr();
    let p = MetaAddr::new_gossiped_meta_addr(addr, node_services(), dt(1_000));
    let attempted = MetaAddr::new_reconnect(&addr)
        .apply_to_meta_addr(Some(p), dt(2_000), inst(10))
        .unwrap();
    assert!(attempted.last_attempt().is_some());
    let responded = MetaAddr::new_responded(&addr, &node_services())
        .apply_to_meta_addr(Some(attempted), dt(3_000), inst(20))
        .unwrap();
    assert!(responded.last_response().is_some());
    let failed = MetaAddr::new_errored(&addr, None)
        .apply_to_meta_addr(Some(responded), dt(4_000), inst(30))
        .unwrap();
    assert!(failed.last_failure().is_some());
    // Every earlier witness survives.
    assert!(failed.last_attempt().is_some());
    assert!(failed.last_response().is_some());
}

/// A change can be redirected to another endpoint, keeping its payload.
#[test]
fn change_addr_accessors() {
    let addr = test_addr();
    let other = PeerSocketAddr { ip: PeerIp::v4_from_octets(198, 51, 100, 7), port: 1 };
    let mut change = MetaAddrChange::NewGossiped {
        addr,
        untrusted_services: node_services(),
        untrusted_last_seen: dt(42),
    };
    assert_eq!(change.addr(), addr);
    change.set_addr(other);
    assert_eq!(change.addr(), other);
    assert_eq!(change.untrusted_services(), Some(node_services()));
    assert_eq!(change.untrusted_last_seen(dt(7)), Some(dt(42)));
    assert_eq!(change.peer_addr_state(), PeerAddrState::NeverAttemptedGossiped);

    // A local listener claims the network bit and the current time.
    let local = MetaAddr::new_local_listener_change(&addr);
    assert_eq!(local.untrusted_services(), Some(node_services()));
    assert_eq!(local.untrusted_last_seen(dt(7)), Some(dt(7)));
    assert_eq!(local.last_attempt(inst(3)), None);

    // Update changes contribute their sampled times.
    let attempt = MetaAddr::new_reconnect(&addr);
    assert_eq!(attempt.last_attempt(inst(3)), Some(inst(3)));
    let responded = MetaAddr::new_responded(&addr, &node_services());
    assert_eq!(responded.last_response(dt(5)), Some(dt(5)));
    let failed = MetaAddr::new_errored(&addr, None);
    assert_eq!(failed.last_failure(inst(9)), Some(inst(9)));
    assert_eq!(failed.untrusted_services(), None);
}

/// A record with a claimed last-seen time can be turned back into gossip.
#[test]
fn regossiped_change_carries_claim() {
    let rec = MetaAddr::new_gossiped_meta_addr(test_addr(), node_services(), dt(81_000));
    let change = rec.new_gossiped_change();
    assert_eq!(
        change,
        MetaAddrChange::NewGossiped {
            addr: test_addr(),
            untrusted_services: node_services(),
            untrusted_last_seen: dt(81_000),
        }
    );
    let recreated = change.into_new_meta_addr(dt(99_000)).expect("gossip creates");
    assert_eq!(recreated.untrusted_last_seen(), Some(dt(81_000)));
}

/// A v4-mapped IPv6 endpoint collapses to its IPv4 form on record creation.
#[test]
fn endpoint_canonicalization() {
    let mapped = PeerSocketAddr {
        ip: PeerIp::V6(0x0000_0000_0000_0000_0000_ffff_c000_0201),
        port: 8233,
    };
    let rec = MetaAddr::new_gossiped_meta_addr(mapped, node_services(), dt(1));
    assert_eq!(rec.addr(), test_addr());
    // Loopback and ordinary IPv6 addresses are preserved.
    let loopback = PeerSocketAddr { ip: PeerIp::V6(1), port: 8233 };
    let rec6 = MetaAddr::new_gossiped_meta_addr(loopback, node_services(), dt(1));
    assert_eq!(rec6.addr(), loopback);
}
