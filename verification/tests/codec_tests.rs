//! Tests of the wire codec for gossiped records and gossip lists.

use zebra_network::addr::{PeerIp, PeerSocketAddr};
use zebra_network::codec::{zcash_deserialize_addrs, zcash_serialize_addrs, SerializationError};
use zebra_network::constants::MAX_PROTOCOL_MESSAGE_LEN;
use zebra_network::meta_addr::{MetaAddr, PeerAddrState};
use zebra_network::services::{PeerServices, NODE_NETWORK};
use zebra_network::time::DateTime32;

fn wire_record() -> Vec<u8> {
    let mut bytes = Vec::new();
    // last-seen time 4096, little-endian
    bytes.extend_from_slice(&[0x00, 0x10, 0x00, 0x00]);
    // services NODE_NETWORK, little-endian
    bytes.extend_from_slice(&[0x01, 0x00, 0x00, 0x00, 0x00, 0x00, 0x00, 0x00]);
    // 192.0.2.1 as a v4-mapped IPv6 address
    bytes.extend_from_slice(&[
        0x00, 0x00, 0x00, 0x00, 0x00, 0x00, 0x00, 0x00, 0x00, 0x00, 0xff, 0xff, 0xc0, 0x00, 0x02,
        0x01,
    ]);
    // port 8233, big-endian
    bytes.extend_from_slice(&[0x20, 0x29]);
    bytes
}

/// The documented 30-byte example decodes to the expected record and
/// re-encodes to the identical bytes.
#[test]
fn wire_round_trip() {
    let bytes = wire_record();
    assert_eq!(bytes.len(), 30);
    let rec = MetaAddr::zcash_deserialize(&bytes).expect("a 30-byte buffer decodes");
    assert_eq!(
        rec.addr(),
        PeerSocketAddr { ip: PeerIp::v4_from_octets(192, 0, 2, 1), port: 8233 }
    );
    assert_eq!(rec.services(), PeerServices { bits: NODE_NETWORK });
    assert_eq!(rec.untrusted_last_seen(), Some(DateTime32 { timestamp: 4096 }));
    assert_eq!(rec.last_connection_state(), PeerAddrState::NeverAttemptedGossiped);
    assert_eq!(rec.last_response(), None);
    assert_eq!(rec.last_attempt(), None);
    assert_eq!(rec.last_failure(), None);

    let reencoded = rec.zcash_serialize();
    assert_eq!(reencoded, bytes);
}

/// A sanitized record survives serialization and deserialization exactly.
#[test]
fn sanitized_round_trip() {
    let mut rec = MetaAddr::new_gossiped_meta_addr(
        PeerSocketAddr { ip: PeerIp::v4_from_octets(203, 0, 113, 9), port: 4567 },
        PeerServices { bits: NODE_NETWORK | 0xb000_0000_0000_0000 },
        DateTime32 { timestamp: 3 },
    );
    rec.set_last_response(DateTime32 { timestamp: 1_234_567 });
    let sanitized = rec.sanitize().expect("valid record sanitizes");
    let decoded = MetaAddr::zcash_deserialize(&sanitized.zcash_serialize())
        .expect("round trip decodes");
    assert!(decoded == sanitized);
    // Unknown service bits ride along verbatim.
    assert_eq!(decoded.services(), sanitized.services());
}

/// An ordinary IPv6 endpoint round-trips without collapsing.
#[test]
fn ipv6_round_trip() {
    let rec = MetaAddr::new_gossiped_meta_addr(
        PeerSocketAddr { ip: PeerIp::V6(0x2001_0db8_0000_0000_0000_0000_0000_0001), port: 8233 },
        PeerServices { bits: NODE_NETWORK },
        DateTime32 { timestamp: 77 },
    );
    let decoded = MetaAddr::zcash_deserialize(&rec.zcash_serialize()).expect("decodes");
    assert!(decoded == rec);
}

/// A short or long buffer is a deserialization error.
#[test]
fn wrong_length_rejected() {
    let mut bytes = wire_record();
    bytes.pop();
    assert_eq!(
        MetaAddr::zcash_deserialize(&bytes),
        Err(SerializationError::Deserialization)
    );
    let mut long = wire_record();
    long.push(0);
    assert_eq!(
        MetaAddr::zcash_deserialize(&long),
        Err(SerializationError::Deserialization)
    );
    assert_eq!(
        MetaAddr::zcash_deserialize(&Vec::new()),
        Err(SerializationError::Deserialization)
    );
}

/// The preallocation bound is the message size less the worst-case length
/// prefix, divided by the record size.
#[test]
fn max_allocation_formula() {
    assert_eq!(
        MetaAddr::max_allocation(),
        ((MAX_PROTOCOL_MESSAGE_LEN - 3) / 30) as u64
    );
}

/// A list whose count exceeds the preallocation bound is rejected before
/// its records are read.
#[test]
fn oversized_list_rejected() {
    let over = MetaAddr::max_allocation() + 1;
    let mut bytes = vec![0xfe];
    bytes.extend_from_slice(&(over as u32).to_le_bytes());
    assert_eq!(
        zcash_deserialize_addrs(&bytes),
        Err(SerializationError::Deserialization)
    );
    // A count claiming far more than the message could hold fails the same
    // way, with no records present at all.
    let mut huge = vec![0xff];
    huge.extend_from_slice(&u64::MAX.to_le_bytes());
    assert_eq!(
        zcash_deserialize_addrs(&huge),
        Err(SerializationError::Deserialization)
    );
}

/// A gossip list round-trips: count prefix, then each record.
#[test]
fn list_round_trip() {
    let one = MetaAddr::new_gossiped_meta_addr(
        PeerSocketAddr { ip: PeerIp::v4_from_octets(192, 0, 2, 1), port: 8233 },
        PeerServices { bits: NODE_NETWORK },
        DateTime32 { timestamp: 1800 },
    );
    let two = MetaAddr::new_gossiped_meta_addr(
        PeerSocketAddr { ip: PeerIp::V6(0xfe80 << 112), port: 18233 },
        PeerServices { bits: NODE_NETWORK | 4 },
        DateTime32 { timestamp: 3600 },
    );
    let list = vec![one, two];
    let bytes = zcash_serialize_addrs(&list);
    assert_eq!(bytes.len(), 1 + 2 * 30);
    assert_eq!(bytes[0], 2);
    let decoded = zcash_deserialize_addrs(&bytes).expect("list decodes");
    assert_eq!(decoded.len(), 2);
    assert!(decoded[0] == one);
    assert!(decoded[1] == two);
}

/// The empty list is one zero byte.
#[test]
fn empty_list_round_trip() {
    let bytes = zcash_serialize_addrs(&Vec::new());
    assert_eq!(bytes, vec![0x00]);
    let decoded = zcash_deserialize_addrs(&bytes).expect("empty list decodes");
    assert!(decoded.is_empty());
}

/// A list with bytes missing or left over is rejected.
#[test]
fn list_length_mismatch_rejected() {
    let one = MetaAddr::new_gossiped_meta_addr(
        PeerSocketAddr { ip: PeerIp::v4_from_octets(192, 0, 2, 1), port: 8233 },
        PeerServices { bits: NODE_NETWORK },
        DateTime32 { timestamp: 1800 },
    );
    let mut bytes = zcash_serialize_addrs(&vec![one]);
    bytes.push(0);
    assert_eq!(
        zcash_deserialize_addrs(&bytes),
        Err(SerializationError::Deserialization)
    );
    bytes.pop();
    bytes.pop();
    assert_eq!(
        zcash_deserialize_addrs(&bytes),
        Err(SerializationError::Deserialization)
    );
}

/// A non-canonical compact-size count is rejected.
#[test]
fn non_canonical_count_rejected() {
    // The value 1 padded out to the three-byte form.
    let mut bytes = vec![0xfd, 0x01, 0x00];
    bytes.extend_from_slice(&wire_record());
    assert_eq!(
        zcash_deserialize_addrs(&bytes),
        Err(SerializationError::Deserialization)
    );
    // The canonical form of the same list decodes.
    let mut canonical = vec![0x01];
    canonical.extend_from_slice(&wire_record());
    assert!(zcash_deserialize_addrs(&canonical).is_ok());
}
