//! The wire codec for gossiped peer records.
//!
//! A gossiped record occupies exactly 30 bytes: a 4-byte little-endian
//! last-seen time, an 8-byte little-endian service bitset, the 16 bytes of
//! the IP in IPv6 form (IPv4 as v4-mapped), and a 2-byte big-endian port. A
//! gossip list is a compact-size count followed by that many records; the
//! count is bounded before anything is allocated, so a hostile length prefix
//! cannot force a large allocation.

use vstd::prelude::*;

use crate::addr::{PeerIp, PeerSocketAddr};
use crate::constants::MAX_PROTOCOL_MESSAGE_LEN;
use crate::meta_addr::MetaAddr;
use crate::services::PeerServices;
use crate::time::DateTime32;

verus! {

/// A serialized record: 4 bytes of time, 8 of services, 16 of IP, 2 of port.
pub const META_ADDR_SIZE: usize = 4 + 8 + 16 + 2;

/// The failure of a decode: wire input that violates the encoding, whether a
/// short buffer, a non-canonical length prefix, or a length prefix past the
/// preallocation bound.
#[derive(Copy, Clone, Debug, PartialEq, Eq, Structural)]
pub enum SerializationError {
    Deserialization,
}

/// The four bytes of `x`, least significant first.
pub open spec fn u32_le_bytes(x: u32) -> Seq<u8> {
    seq![
        (x & 0xff) as u8,
        ((x >> 8) & 0xff) as u8,
        ((x >> 16) & 0xff) as u8,
        ((x >> 24) & 0xff) as u8,
    ]
}

/// The value read from four bytes, least significant first.
pub open spec fn u32_from_le_bytes(b0: u8, b1: u8, b2: u8, b3: u8) -> u32 {
    (b0 as u32) | ((b1 as u32) << 8) | ((b2 as u32) << 16) | ((b3 as u32) << 24)
}

/// The eight bytes of `x`, least significant first.
pub open spec fn u64_le_bytes(x: u64) -> Seq<u8> {
    seq![
        (x & 0xff) as u8,
        ((x >> 8) & 0xff) as u8,
        ((x >> 16) & 0xff) as u8,
        ((x >> 24) & 0xff) as u8,
        ((x >> 32) & 0xff) as u8,
        ((x >> 40) & 0xff) as u8,
        ((x >> 48) & 0xff) as u8,
        ((x >> 56) & 0xff) as u8,
    ]
}

/// The value read from eight bytes, least significant first.
pub open spec fn u64_from_le_bytes(
    b0: u8,
    b1: u8,
    b2: u8,
    b3: u8,
    b4: u8,
    b5: u8,
    b6: u8,
    b7: u8,
) -> u64 {
    (b0 as u64) | ((b1 as u64) << 8) | ((b2 as u64) << 16) | ((b3 as u64) << 24) | ((b4 as u64)
        << 32) | ((b5 as u64) << 40) | ((b6 as u64) << 48) | ((b7 as u64) << 56)
}

/// The two bytes of `x`, most significant first.
pub open spec fn u16_be_bytes(x: u16) -> Seq<u8> {
    seq![((x >> 8) & 0xff) as u8, (x & 0xff) as u8]
}

/// The value read from two bytes, most significant first.
pub open spec fn u16_from_be_bytes(b0: u8, b1: u8) -> u16 {
    ((b0 as u16) << 8) | (b1 as u16)
}

/// The sixteen bytes of `x`, most significant first.
pub open spec fn u128_be_bytes(x: u128) -> Seq<u8> {
    seq![
        ((x >> 120) & 0xff) as u8,
        ((x >> 112) & 0xff) as u8,
        ((x >> 104) & 0xff) as u8,
        ((x >> 96) & 0xff) as u8,
        ((x >> 88) & 0xff) as u8,
        ((x >> 80) & 0xff) as u8,
        ((x >> 72) & 0xff) as u8,
        ((x >> 64) & 0xff) as u8,
        ((x >> 56) & 0xff) as u8,
        ((x >> 48) & 0xff) as u8,
        ((x >> 40) & 0xff) as u8,
        ((x >> 32) & 0xff) as u8,
        ((x >> 24) & 0xff) as u8,
        ((x >> 16) & 0xff) as u8,
        ((x >> 8) & 0xff) as u8,
        (x & 0xff) as u8,
    ]
}

/// The value read from sixteen bytes, most significant first.
pub open spec fn u128_from_be_bytes(s: Seq<u8>) -> u128
    recommends
        s.len() == 16,
{
    ((s[0] as u128) << 120) | ((s[1] as u128) << 112) | ((s[2] as u128) << 104) | ((s[3] as u128)
        << 96) | ((s[4] as u128) << 88) | ((s[5] as u128) << 80) | ((s[6] as u128) << 72) | ((s[7]
        as u128) << 64) | ((s[8] as u128) << 56) | ((s[9] as u128) << 48) | ((s[10] as u128) << 40)
        | ((s[11] as u128) << 32) | ((s[12] as u128) << 24) | ((s[13] as u128) << 16) | ((s[14]
        as u128) << 8) | (s[15] as u128)
}

/// The sixteen bytes of an IP on the wire, as one big-endian value: an IPv6
/// address is itself, an IPv4 address its v4-mapped form `::ffff:a.b.c.d`.
pub open spec fn ip_to_v6_bits(ip: PeerIp) -> u128 {
    match ip {
        PeerIp::V4(bits) => (0xffffu128 << 32) | (bits as u128),
        PeerIp::V6(bits) => bits,
    }
}

/// The 30-byte wire form of a record: little-endian effective last-seen
/// time, little-endian service bits, the IP in IPv6 form, big-endian port.
pub open spec fn serialize_meta_addr_spec(m: MetaAddr) -> Seq<u8>
    recommends
        m.last_seen_spec() is Some,
{
    u32_le_bytes(m.last_seen_spec()->Some_0.timestamp) + u64_le_bytes(m.services.bits)
        + u128_be_bytes(ip_to_v6_bits(m.addr.ip)) + u16_be_bytes(m.addr.port)
}

/// The record read from a 30-byte buffer, or `None` when the length is
/// wrong.
///
/// Every 30-byte pattern decodes: the services keep all 64 bits, the
/// endpoint is canonicalized (collapsing a v4-mapped IP), and the record
/// comes out freshly gossiped, with only the untrusted last-seen time set.
pub open spec fn deserialize_meta_addr_spec(s: Seq<u8>) -> Option<MetaAddr> {
    if s.len() != META_ADDR_SIZE {
        None
    } else {
        Some(
            MetaAddr::new_gossiped_meta_addr_spec(
                PeerSocketAddr {
                    ip: PeerIp::V6(u128_from_be_bytes(s.subrange(12, 28))),
                    port: u16_from_be_bytes(s[28], s[29]),
                },
                PeerServices { bits: u64_from_le_bytes(s[4], s[5], s[6], s[7], s[8], s[9], s[10], s[11]) },
                DateTime32 { timestamp: u32_from_le_bytes(s[0], s[1], s[2], s[3]) },
            ),
        )
    }
}

/// The most records a single protocol message can carry: the message size
/// less the worst-case list-length prefix, divided by the record size.
pub open spec fn max_allocation_spec() -> int {
    (MAX_PROTOCOL_MESSAGE_LEN - 3) / (META_ADDR_SIZE as int)
}

/// The compact-size encoding of a count: one byte below `0xfd`, else a tag
/// byte and a little-endian value of 2, 4 or 8 bytes, always the shortest
/// form that fits.
pub open spec fn compactsize_bytes(n: u64) -> Seq<u8> {
    if n < 0xfd {
        seq![n as u8]
    } else if n <= 0xffff {
        seq![0xfdu8, (n & 0xff) as u8, ((n >> 8) & 0xff) as u8]
    } else if n <= 0xffff_ffff {
        seq![
            0xfeu8,
            (n & 0xff) as u8,
            ((n >> 8) & 0xff) as u8,
            ((n >> 16) & 0xff) as u8,
            ((n >> 24) & 0xff) as u8,
        ]
    } else {
        seq![0xffu8] + u64_le_bytes(n)
    }
}

/// The compact-size count at the head of `s` and the bytes it occupies, or
/// `None` when the buffer is short or the encoding is not the canonical
/// shortest form.
pub open spec fn compactsize_decode(s: Seq<u8>) -> Option<(u64, int)> {
    if s.len() < 1 {
        None
    } else if s[0] < 0xfd {
        Some(((s[0] as u64), 1))
    } else if s[0] == 0xfd {
        if s.len() < 3 {
            None
        } else {
            let v = (s[1] as u64) | ((s[2] as u64) << 8);
            if v < 0xfd {
                None
            } else {
                Some((v, 3))
            }
        }
    } else if s[0] == 0xfe {
        if s.len() < 5 {
            None
        } else {
            let v = (s[1] as u64) | ((s[2] as u64) << 8) | ((s[3] as u64) << 16) | ((s[4] as u64)
                << 24);
            if v <= 0xffff {
                None
            } else {
                Some((v, 5))
            }
        }
    } else {
        if s.len() < 9 {
            None
        } else {
            let v = u64_from_le_bytes(s[1], s[2], s[3], s[4], s[5], s[6], s[7], s[8]);
            if v <= 0xffff_ffff {
                None
            } else {
                Some((v, 9))
            }
        }
    }
}

/// The wire form of a gossip list: the count, then each record in order.
pub open spec fn serialize_addrs_spec(addrs: Seq<MetaAddr>) -> Seq<u8> {
    compactsize_bytes(addrs.len() as u64) + records_bytes(addrs)
}

/// The concatenated wire forms of a sequence of records.
pub open spec fn records_bytes(addrs: Seq<MetaAddr>) -> Seq<u8>
    decreases addrs.len(),
{
    if addrs.len() == 0 {
        Seq::empty()
    } else {
        records_bytes(addrs.drop_last()) + serialize_meta_addr_spec(addrs.last())
    }
}

/// The gossip list read from `s`, or `None` when the count is malformed or
/// past the preallocation bound, or the remaining bytes are not exactly that
/// many records.
pub open spec fn deserialize_addrs_spec(s: Seq<u8>) -> Option<Seq<MetaAddr>> {
    match compactsize_decode(s) {
        None => None,
        Some((n, consumed)) => {
            if n > max_allocation_spec() {
                None
            } else if s.len() - consumed != n * (META_ADDR_SIZE as int) {
                None
            } else {
                Some(
                    Seq::new(
                        n as nat,
                        |i: int|
                            deserialize_meta_addr_spec(
                                s.subrange(consumed + 30 * i, consumed + 30 * i + 30),
                            )->Some_0,
                    ),
                )
            }
        },
    }
}

fn push_u32_le(out: &mut Vec<u8>, x: u32)
    ensures
        final(out)@ == old(out)@ + u32_le_bytes(x),
{
    out.push((x & 0xff) as u8);
    out.push(((x >> 8) & 0xff) as u8);
    out.push(((x >> 16) & 0xff) as u8);
    out.push(((x >> 24) & 0xff) as u8);
    assert(out@ =~= old(out)@ + u32_le_bytes(x));
}

fn push_u64_le(out: &mut Vec<u8>, x: u64)
    ensures
        final(out)@ == old(out)@ + u64_le_bytes(x),
{
    out.push((x & 0xff) as u8);
    out.push(((x >> 8) & 0xff) as u8);
    out.push(((x >> 16) & 0xff) as u8);
    out.push(((x >> 24) & 0xff) as u8);
    out.push(((x >> 32) & 0xff) as u8);
    out.push(((x >> 40) & 0xff) as u8);
    out.push(((x >> 48) & 0xff) as u8);
    out.push(((x >> 56) & 0xff) as u8);
    assert(out@ =~= old(out)@ + u64_le_bytes(x));
}

fn push_u128_be(out: &mut Vec<u8>, x: u128)
    ensures
        final(out)@ == old(out)@ + u128_be_bytes(x),
{
    out.push(((x >> 120) & 0xff) as u8);
    out.push(((x >> 112) & 0xff) as u8);
    out.push(((x >> 104) & 0xff) as u8);
    out.push(((x >> 96) & 0xff) as u8);
    out.push(((x >> 88) & 0xff) as u8);
    out.push(((x >> 80) & 0xff) as u8);
    out.push(((x >> 72) & 0xff) as u8);
    out.push(((x >> 64) & 0xff) as u8);
    out.push(((x >> 56) & 0xff) as u8);
    out.push(((x >> 48) & 0xff) as u8);
    out.push(((x >> 40) & 0xff) as u8);
    out.push(((x >> 32) & 0xff) as u8);
    out.push(((x >> 24) & 0xff) as u8);
    out.push(((x >> 16) & 0xff) as u8);
    out.push(((x >> 8) & 0xff) as u8);
    out.push((x & 0xff) as u8);
    assert(out@ =~= old(out)@ + u128_be_bytes(x));
}

fn push_u16_be(out: &mut Vec<u8>, x: u16)
    ensures
        final(out)@ == old(out)@ + u16_be_bytes(x),
{
    out.push(((x >> 8) & 0xff) as u8);
    out.push((x & 0xff) as u8);
    assert(out@ =~= old(out)@ + u16_be_bytes(x));
}

fn encode_ip_bits(ip: PeerIp) -> (r: u128)
    ensures
        r == ip_to_v6_bits(ip),
{
    match ip {
        PeerIp::V4(bits) => (0xffffu128 << 32) | (bits as u128),
        PeerIp::V6(bits) => bits,
    }
}

fn read_u32_le(bytes: &Vec<u8>, pos: usize) -> (r: u32)
    requires
        pos + 4 <= bytes@.len(),
    ensures
        r == u32_from_le_bytes(
            bytes@[pos as int],
            bytes@[pos + 1],
            bytes@[pos + 2],
            bytes@[pos + 3],
        ),
{
    let len: usize = bytes.len();
    assert(pos + 4 <= len);
    (bytes[pos] as u32) | ((bytes[pos + 1] as u32) << 8) | ((bytes[pos + 2] as u32) << 16) | ((
    bytes[pos + 3] as u32) << 24)
}

fn read_u64_le(bytes: &Vec<u8>, pos: usize) -> (r: u64)
    requires
        pos + 8 <= bytes@.len(),
    ensures
        r == u64_from_le_bytes(
            bytes@[pos as int],
            bytes@[pos + 1],
            bytes@[pos + 2],
            bytes@[pos + 3],
            bytes@[pos + 4],
            bytes@[pos + 5],
            bytes@[pos + 6],
            bytes@[pos + 7],
        ),
{
    let len: usize = bytes.len();
    assert(pos + 8 <= len);
    (bytes[pos] as u64) | ((bytes[pos + 1] as u64) << 8) | ((bytes[pos + 2] as u64) << 16) | ((
    bytes[pos + 3] as u64) << 24) | ((bytes[pos + 4] as u64) << 32) | ((bytes[pos + 5] as u64)
        << 40) | ((bytes[pos + 6] as u64) << 48) | ((bytes[pos + 7] as u64) << 56)
}

fn read_u16_be(bytes: &Vec<u8>, pos: usize) -> (r: u16)
    requires
        pos + 2 <= bytes@.len(),
    ensures
        r == u16_from_be_bytes(bytes@[pos as int], bytes@[pos + 1]),
{
    let len: usize = bytes.len();
    assert(pos + 2 <= len);
    ((bytes[pos] as u16) << 8) | (bytes[pos + 1] as u16)
}

fn read_u128_be(bytes: &Vec<u8>, pos: usize) -> (r: u128)
    requires
        pos + 16 <= bytes@.len(),
    ensures
        r == u128_from_be_bytes(bytes@.subrange(pos as int, pos + 16)),
{
    let len: usize = bytes.len();
    assert(pos + 16 <= len);
    let r = ((bytes[pos] as u128) << 120) | ((bytes[pos + 1] as u128) << 112) | ((bytes[pos + 2]
        as u128) << 104) | ((bytes[pos + 3] as u128) << 96) | ((bytes[pos + 4] as u128) << 88) | ((
    bytes[pos + 5] as u128) << 80) | ((bytes[pos + 6] as u128) << 72) | ((bytes[pos + 7] as u128)
        << 64) | ((bytes[pos + 8] as u128) << 56) | ((bytes[pos + 9] as u128) << 48) | ((bytes[pos
        + 10] as u128) << 40) | ((bytes[pos + 11] as u128) << 32) | ((bytes[pos + 12] as u128)
        << 24) | ((bytes[pos + 13] as u128) << 16) | ((bytes[pos + 14] as u128) << 8) | (bytes[pos
        + 15] as u128);
    proof {
        let s = bytes@.subrange(pos as int, pos + 16);
        assert(forall|i: int| 0 <= i < 16 ==> s[i] == bytes@[pos + i]);
    }
    r
}

fn read_meta_addr_at(bytes: &Vec<u8>, pos: usize) -> (r: MetaAddr)
    requires
        pos + META_ADDR_SIZE <= bytes@.len(),
    ensures
        Some(r) == deserialize_meta_addr_spec(bytes@.subrange(pos as int, pos + META_ADDR_SIZE)),
{
    let len: usize = bytes.len();
    assert(pos + META_ADDR_SIZE <= len);
    let timestamp = read_u32_le(bytes, pos);
    let bits = read_u64_le(bytes, pos + 4);
    let ip_bits = read_u128_be(bytes, pos + 12);
    let port = read_u16_be(bytes, pos + 28);
    let r = MetaAddr::new_gossiped_meta_addr(
        PeerSocketAddr { ip: PeerIp::V6(ip_bits), port },
        PeerServices::from_bits_truncate(bits),
        DateTime32 { timestamp },
    );
    proof {
        let s = bytes@.subrange(pos as int, pos + META_ADDR_SIZE);
        assert(forall|i: int| 0 <= i < META_ADDR_SIZE ==> s[i] == bytes@[pos + i]);
        assert(s.subrange(12, 28) =~= bytes@.subrange(pos + 12, pos + 28));
    }
    r
}

impl MetaAddr {
    /// The most records a single message may claim to carry; a count above
    /// this bound is rejected before any allocation.
    pub fn max_allocation() -> (r: u64)
        ensures
            r == max_allocation_spec(),
    {
        ((MAX_PROTOCOL_MESSAGE_LEN - 3) / META_ADDR_SIZE) as u64
    }

    /// Encodes this record into its 30-byte wire form.
    ///
    /// The record must have an effective last-seen time: records are
    /// sanitized before serialization, and sanitization guarantees one.
    pub fn zcash_serialize(&self) -> (r: Vec<u8>)
        requires
            self.last_seen_spec() is Some,
        ensures
            r@ == serialize_meta_addr_spec(*self),
    {
        let mut out: Vec<u8> = Vec::new();
        let last_seen = match self.last_seen() {
            Some(t) => t,
            None => unreached(),
        };
        push_u32_le(&mut out, last_seen.timestamp());
        push_u64_le(&mut out, self.services().bits());
        push_u128_be(&mut out, encode_ip_bits(self.addr().ip));
        push_u16_be(&mut out, self.addr().port);
        assert(out@ =~= serialize_meta_addr_spec(*self));
        out
    }

    /// Decodes one record from an exactly 30-byte buffer.
    pub fn zcash_deserialize(bytes: &Vec<u8>) -> (r: Result<MetaAddr, SerializationError>)
        ensures
            deserialize_meta_addr_spec(bytes@) matches Some(m) ==> r == Ok::<
                MetaAddr,
                SerializationError,
            >(m),
            deserialize_meta_addr_spec(bytes@) is None ==> r == Err::<
                MetaAddr,
                SerializationError,
            >(SerializationError::Deserialization),
    {
        if bytes.len() != META_ADDR_SIZE {
            return Err(SerializationError::Deserialization);
        }
        let r = read_meta_addr_at(bytes, 0);
        proof {
            assert(bytes@.subrange(0, META_ADDR_SIZE as int) =~= bytes@);
        }
        Ok(r)
    }
}

fn write_compactsize(out: &mut Vec<u8>, n: u64)
    ensures
        final(out)@ == old(out)@ + compactsize_bytes(n),
{
    if n < 0xfd {
        out.push(n as u8);
    } else if n <= 0xffff {
        out.push(0xfd);
        out.push((n & 0xff) as u8);
        out.push(((n >> 8) & 0xff) as u8);
    } else if n <= 0xffff_ffff {
        out.push(0xfe);
        out.push((n & 0xff) as u8);
        out.push(((n >> 8) & 0xff) as u8);
        out.push(((n >> 16) & 0xff) as u8);
        out.push(((n >> 24) & 0xff) as u8);
    } else {
        out.push(0xff);
        push_u64_le(out, n);
    }
    assert(out@ =~= old(out)@ + compactsize_bytes(n));
}

fn read_compactsize(bytes: &Vec<u8>) -> (r: Result<(u64, usize), SerializationError>)
    ensures
        compactsize_decode(bytes@) matches Some(vk) ==> r matches Ok(ok) && ok.0 == vk.0 && ok.1
            == vk.1,
        compactsize_decode(bytes@) is None ==> r == Err::<(u64, usize), SerializationError>(
            SerializationError::Deserialization,
        ),
{
    if bytes.len() < 1 {
        return Err(SerializationError::Deserialization);
    }
    let tag = bytes[0];
    if tag < 0xfd {
        Ok((tag as u64, 1))
    } else if tag == 0xfd {
        if bytes.len() < 3 {
            return Err(SerializationError::Deserialization);
        }
        let v = (bytes[1] as u64) | ((bytes[2] as u64) << 8);
        if v < 0xfd {
            return Err(SerializationError::Deserialization);
        }
        Ok((v, 3))
    } else if tag == 0xfe {
        if bytes.len() < 5 {
            return Err(SerializationError::Deserialization);
        }
        let v = (bytes[1] as u64) | ((bytes[2] as u64) << 8) | ((bytes[3] as u64) << 16) | ((
        bytes[4] as u64) << 24);
        if v <= 0xffff {
            return Err(SerializationError::Deserialization);
        }
        Ok((v, 5))
    } else {
        if bytes.len() < 9 {
            return Err(SerializationError::Deserialization);
        }
        let v = read_u64_le(bytes, 1);
        if v <= 0xffff_ffff {
            return Err(SerializationError::Deserialization);
        }
        Ok((v, 9))
    }
}

/// Encodes a gossip list: the count, then each record's 30-byte form.
///
/// Every record must have an effective last-seen time, and the list must fit
/// under the preallocation bound its receiver will enforce.
pub fn zcash_serialize_addrs(addrs: &Vec<MetaAddr>) -> (r: Vec<u8>)
    requires
        forall|i: int| 0 <= i < addrs@.len() ==> (#[trigger] addrs@[i]).last_seen_spec() is Some,
        addrs@.len() <= max_allocation_spec(),
    ensures
        r@ == serialize_addrs_spec(addrs@),
{
    let mut out: Vec<u8> = Vec::new();
    write_compactsize(&mut out, addrs.len() as u64);
    let mut i: usize = 0;
    while i < addrs.len()
        invariant
            0 <= i <= addrs@.len(),
            forall|j: int| 0 <= j < addrs@.len() ==> (#[trigger] addrs@[j]).last_seen_spec() is Some,
            out@ == compactsize_bytes(addrs@.len() as u64) + records_bytes(addrs@.take(i as int)),
        decreases addrs@.len() - i,
    {
        let mut chunk = addrs[i].zcash_serialize();
        out.append(&mut chunk);
        proof {
            let taken = addrs@.take(i + 1);
            assert(taken.drop_last() =~= addrs@.take(i as int));
            assert(taken.last() == addrs@[i as int]);
            assert(out@ =~= compactsize_bytes(addrs@.len() as u64) + records_bytes(
                addrs@.take(i + 1),
            ));
        }
        i += 1;
    }
    proof {
        assert(addrs@.take(addrs@.len() as int) =~= addrs@);
    }
    out
}

/// Decodes a gossip list, checking the claimed count against the
/// preallocation bound before any record is read or any space reserved.
///
/// Fails when the count is malformed or exceeds the bound, or when the bytes
/// after the count are not exactly that many records.
pub fn zcash_deserialize_addrs(bytes: &Vec<u8>) -> (r: Result<Vec<MetaAddr>, SerializationError>)
    ensures
        deserialize_addrs_spec(bytes@) matches Some(list) ==> r matches Ok(v) && v@ == list,
        deserialize_addrs_spec(bytes@) is None ==> r == Err::<Vec<MetaAddr>, SerializationError>(
            SerializationError::Deserialization,
        ),
{
    let len: usize = bytes.len();
    let (count, consumed) = match read_compactsize(bytes) {
        Ok(p) => p,
        Err(e) => {
            return Err(e);
        },
    };
    if count > MetaAddr::max_allocation() {
        return Err(SerializationError::Deserialization);
    }
    assert(consumed <= len);
    let expected: u64 = match count.checked_mul(META_ADDR_SIZE as u64) {
        Some(expected) => expected,
        // The byte count of that many records does not even fit in 64 bits,
        // so the buffer cannot hold them.
        None => {
            return Err(SerializationError::Deserialization);
        },
    };
    if (len - consumed) as u64 != expected {
        return Err(SerializationError::Deserialization);
    }
    proof {
        vstd::arithmetic::mul::lemma_mul_inequality(1, META_ADDR_SIZE as int, count as int);
    }
    let count_usize: usize = count as usize;
    let mut out: Vec<MetaAddr> = Vec::new();
    let mut i: usize = 0;
    while i < count_usize
        invariant
            0 <= i <= count_usize,
            count_usize == count,
            count <= max_allocation_spec(),
            consumed + count * (META_ADDR_SIZE as int) == bytes@.len(),
            bytes@.len() <= usize::MAX,
            out@.len() == i,
            forall|j: int|
                0 <= j < i ==> out@[j] == deserialize_meta_addr_spec(
                    #[trigger] bytes@.subrange(consumed + 30 * j, consumed + 30 * j + 30),
                )->Some_0,
        decreases count_usize - i,
    {
        proof {
            vstd::arithmetic::mul::lemma_mul_inequality(
                i as int + 1,
                count as int,
                META_ADDR_SIZE as int,
            );
            assert((i as int + 1) * (META_ADDR_SIZE as int) == i as int * (META_ADDR_SIZE as int)
                + META_ADDR_SIZE);
        }
        assert(consumed + i * (META_ADDR_SIZE as int) + META_ADDR_SIZE <= bytes@.len());
        let rec = read_meta_addr_at(bytes, consumed + i * META_ADDR_SIZE);
        out.push(rec);
        proof {
            assert(out@[i as int] == deserialize_meta_addr_spec(
                bytes@.subrange(
                    consumed + 30 * (i as int),
                    consumed + 30 * (i as int) + 30,
                ),
            )->Some_0);
        }
        i += 1;
    }
    proof {
        let list = deserialize_addrs_spec(bytes@)->Some_0;
        assert(out@ =~= list);
    }
    Ok(out)
}

proof fn lemma_u32_le_round_trip(x: u32)
    ensures
        u32_from_le_bytes(
            (x & 0xff) as u8,
            ((x >> 8) & 0xff) as u8,
            ((x >> 16) & 0xff) as u8,
            ((x >> 24) & 0xff) as u8,
        ) == x,
{
    assert(((x & 0xff) as u8 as u32) | ((((x >> 8) & 0xff) as u8 as u32) << 8) | ((((x >> 16)
        & 0xff) as u8 as u32) << 16) | ((((x >> 24) & 0xff) as u8 as u32) << 24) == x)
        by (bit_vector);
}

proof fn lemma_u64_le_round_trip(x: u64)
    ensures
        u64_from_le_bytes(
            (x & 0xff) as u8,
            ((x >> 8) & 0xff) as u8,
            ((x >> 16) & 0xff) as u8,
            ((x >> 24) & 0xff) as u8,
            ((x >> 32) & 0xff) as u8,
            ((x >> 40) & 0xff) as u8,
            ((x >> 48) & 0xff) as u8,
            ((x >> 56) & 0xff) as u8,
        ) == x,
{
    assert(((x & 0xff) as u8 as u64) | ((((x >> 8) & 0xff) as u8 as u64) << 8) | ((((x >> 16)
        & 0xff) as u8 as u64) << 16) | ((((x >> 24) & 0xff) as u8 as u64) << 24) | ((((x >> 32)
        & 0xff) as u8 as u64) << 32) | ((((x >> 40) & 0xff) as u8 as u64) << 40) | ((((x >> 48)
        & 0xff) as u8 as u64) << 48) | ((((x >> 56) & 0xff) as u8 as u64) << 56) == x)
        by (bit_vector);
}

proof fn lemma_u16_be_round_trip(x: u16)
    ensures
        u16_from_be_bytes(((x >> 8) & 0xff) as u8, (x & 0xff) as u8) == x,
{
    assert(((((x >> 8) & 0xff) as u8 as u16) << 8) | ((x & 0xff) as u8 as u16) == x)
        by (bit_vector);
}

proof fn lemma_u128_be_round_trip(x: u128)
    ensures
        u128_from_be_bytes(u128_be_bytes(x)) == x,
{
    assert((((((x >> 120) & 0xff) as u8) as u128) << 120) | (((((x >> 112) & 0xff) as u8) as u128)
        << 112) | (((((x >> 104) & 0xff) as u8) as u128) << 104) | (((((x >> 96) & 0xff) as u8)
        as u128) << 96) | (((((x >> 88) & 0xff) as u8) as u128) << 88) | (((((x >> 80) & 0xff)
        as u8) as u128) << 80) | (((((x >> 72) & 0xff) as u8) as u128) << 72) | (((((x >> 64)
        & 0xff) as u8) as u128) << 64) | (((((x >> 56) & 0xff) as u8) as u128) << 56) | (((((x
        >> 48) & 0xff) as u8) as u128) << 48) | (((((x >> 40) & 0xff) as u8) as u128) << 40) | ((((
    (x >> 32) & 0xff) as u8) as u128) << 32) | (((((x >> 24) & 0xff) as u8) as u128) << 24) | ((((
    (x >> 16) & 0xff) as u8) as u128) << 16) | (((((x >> 8) & 0xff) as u8) as u128) << 8) | (((x
        & 0xff) as u8) as u128) == x) by (bit_vector);
    let b = u128_be_bytes(x);
    assert(u128_from_be_bytes(b) == (((b[0] as u128) << 120) | ((b[1] as u128) << 112) | ((b[2]
        as u128) << 104) | ((b[3] as u128) << 96) | ((b[4] as u128) << 88) | ((b[5] as u128) << 80)
        | ((b[6] as u128) << 72) | ((b[7] as u128) << 64) | ((b[8] as u128) << 56) | ((b[9]
        as u128) << 48) | ((b[10] as u128) << 40) | ((b[11] as u128) << 32) | ((b[12] as u128)
        << 24) | ((b[13] as u128) << 16) | ((b[14] as u128) << 8) | (b[15] as u128)));
}

/// Law: a record in gossip form survives the wire unchanged.
///
/// For any record shaped as sanitization leaves it — canonical endpoint, a
/// claimed last-seen time, no local times, freshly-gossiped state — decoding
/// its encoding gives back exactly the record.
pub proof fn lemma_gossip_form_round_trip(m: MetaAddr)
    requires
        m.addr.is_canonical_spec(),
        m.untrusted_last_seen is Some,
        m.last_response is None,
        m.last_attempt is None,
        m.last_failure is None,
        m.last_connection_state is NeverAttemptedGossiped,
    ensures
        deserialize_meta_addr_spec(serialize_meta_addr_spec(m)) == Some(m),
{
    let w = serialize_meta_addr_spec(m);
    let ts = m.last_seen_spec()->Some_0.timestamp;
    let bits = m.services.bits;
    let ip6 = ip_to_v6_bits(m.addr.ip);
    let port = m.addr.port;
    assert(w.len() == 30);
    assert(w[0] == (ts & 0xff) as u8 && w[1] == ((ts >> 8) & 0xff) as u8 && w[2] == ((ts >> 16)
        & 0xff) as u8 && w[3] == ((ts >> 24) & 0xff) as u8);
    assert(w[4] == (bits & 0xff) as u8 && w[5] == ((bits >> 8) & 0xff) as u8 && w[6] == ((bits
        >> 16) & 0xff) as u8 && w[7] == ((bits >> 24) & 0xff) as u8 && w[8] == ((bits >> 32) & 0xff)
        as u8 && w[9] == ((bits >> 40) & 0xff) as u8 && w[10] == ((bits >> 48) & 0xff) as u8 && w[11]
        == ((bits >> 56) & 0xff) as u8);
    assert(w.subrange(12, 28) =~= u128_be_bytes(ip6));
    assert(w[28] == ((port >> 8) & 0xff) as u8 && w[29] == (port & 0xff) as u8);
    lemma_u32_le_round_trip(ts);
    lemma_u64_le_round_trip(bits);
    lemma_u128_be_round_trip(ip6);
    lemma_u16_be_round_trip(port);
    let decoded = deserialize_meta_addr_spec(w)->Some_0;
    match m.addr.ip {
        PeerIp::V4(v4) => {
            assert(((0xffffu128 << 32) | (v4 as u128)) >> 32 == 0xffffu128) by (bit_vector);
            assert((((0xffffu128 << 32) | (v4 as u128)) & 0xffff_ffff) as u32 == v4)
                by (bit_vector);
        },
        PeerIp::V6(v6) => {
            assert(!m.addr.ip.is_v4_mapped_spec());
        },
    }
    assert(decoded =~= m);
}

/// Law: sanitized records survive the wire unchanged.
///
/// For any record that sanitizes at all, decoding the encoding of its
/// sanitized form reproduces that sanitized form exactly.
pub proof fn lemma_sanitized_round_trip(record: MetaAddr)
    requires
        record.sanitize_spec() is Some,
    ensures
        ({
            let s = record.sanitize_spec()->Some_0;
            deserialize_meta_addr_spec(serialize_meta_addr_spec(s)) == Some(s)
        }),
{
    let s = record.sanitize_spec()->Some_0;
    lemma_gossip_form_round_trip(s);
}

proof fn lemma_serialize_meta_addr_len(m: MetaAddr)
    ensures
        serialize_meta_addr_spec(m).len() == META_ADDR_SIZE,
{
}

proof fn lemma_records_bytes_len(addrs: Seq<MetaAddr>)
    ensures
        records_bytes(addrs).len() == addrs.len() * (META_ADDR_SIZE as int),
    decreases addrs.len(),
{
    if addrs.len() == 0 {
    } else {
        lemma_records_bytes_len(addrs.drop_last());
        lemma_serialize_meta_addr_len(addrs.last());
        assert((addrs.len() - 1) * (META_ADDR_SIZE as int) + META_ADDR_SIZE == addrs.len() * (
        META_ADDR_SIZE as int)) by (nonlinear_arith);
    }
}

proof fn lemma_records_bytes_index(addrs: Seq<MetaAddr>, i: int)
    requires
        0 <= i < addrs.len(),
    ensures
        records_bytes(addrs).subrange(
            i * (META_ADDR_SIZE as int),
            i * (META_ADDR_SIZE as int) + META_ADDR_SIZE,
        ) =~= serialize_meta_addr_spec(addrs[i]),
    decreases addrs.len(),
{
    lemma_records_bytes_len(addrs);
    lemma_records_bytes_len(addrs.drop_last());
    vstd::arithmetic::mul::lemma_mul_inequality(i + 1, addrs.len() as int, META_ADDR_SIZE as int);
    assert((i + 1) * (META_ADDR_SIZE as int) == i * (META_ADDR_SIZE as int) + META_ADDR_SIZE);
    if i == addrs.len() - 1 {
        assert(records_bytes(addrs).subrange(
            i * (META_ADDR_SIZE as int),
            i * (META_ADDR_SIZE as int) + META_ADDR_SIZE,
        ) =~= serialize_meta_addr_spec(addrs[i]));
    } else {
        lemma_records_bytes_index(addrs.drop_last(), i);
        vstd::arithmetic::mul::lemma_mul_inequality(
            i + 1,
            addrs.len() as int - 1,
            META_ADDR_SIZE as int,
        );
        assert(records_bytes(addrs).subrange(
            i * (META_ADDR_SIZE as int),
            i * (META_ADDR_SIZE as int) + META_ADDR_SIZE,
        ) =~= records_bytes(addrs.drop_last()).subrange(
            i * (META_ADDR_SIZE as int),
            i * (META_ADDR_SIZE as int) + META_ADDR_SIZE,
        ));
    }
}

proof fn lemma_compactsize_round_trip(n: u64, rest: Seq<u8>)
    ensures
        compactsize_decode(compactsize_bytes(n) + rest) == Some(
            (n, compactsize_bytes(n).len() as int),
        ),
{
    let s = compactsize_bytes(n) + rest;
    if n < 0xfd {
        assert(s[0] == (n as u8));
        assert((n as u8) < 0xfdu8 && (n as u8) as u64 == n) by (bit_vector)
            requires
                n < 0xfd,
        ;
        assert(compactsize_decode(s) == Some((n, 1int)));
    } else if n <= 0xffff {
        assert(s[0] == 0xfdu8 && s[1] == (n & 0xff) as u8 && s[2] == ((n >> 8) & 0xff) as u8);
        assert((((n & 0xff) as u8 as u64) | ((((n >> 8) & 0xff) as u8 as u64) << 8)) == n)
            by (bit_vector)
            requires
                n <= 0xffff,
        ;
        assert(compactsize_decode(s) == Some((n, 3int)));
    } else if n <= 0xffff_ffff {
        assert(s[0] == 0xfeu8 && s[1] == (n & 0xff) as u8 && s[2] == ((n >> 8) & 0xff) as u8 && s[3]
            == ((n >> 16) & 0xff) as u8 && s[4] == ((n >> 24) & 0xff) as u8);
        assert((((n & 0xff) as u8 as u64) | ((((n >> 8) & 0xff) as u8 as u64) << 8) | ((((n >> 16)
            & 0xff) as u8 as u64) << 16) | ((((n >> 24) & 0xff) as u8 as u64) << 24)) == n)
            by (bit_vector)
            requires
                n <= 0xffff_ffff,
        ;
        assert(compactsize_decode(s) == Some((n, 5int)));
    } else {
        assert(s[0] == 0xffu8 && s[1] == (n & 0xff) as u8 && s[2] == ((n >> 8) & 0xff) as u8 && s[3]
            == ((n >> 16) & 0xff) as u8 && s[4] == ((n >> 24) & 0xff) as u8 && s[5] == ((n >> 32)
            & 0xff) as u8 && s[6] == ((n >> 40) & 0xff) as u8 && s[7] == ((n >> 48) & 0xff) as u8
            && s[8] == ((n >> 56) & 0xff) as u8);
        lemma_u64_le_round_trip(n);
        assert(compactsize_decode(s) == Some((n, 9int)));
    }
}

/// Law: a whole gossip list of records in gossip form survives the wire
/// unchanged.
///
/// For any sequence of records shaped as sanitization leaves them, no longer
/// than one message may carry, decoding the encoded list gives back exactly
/// that sequence.
proof fn lemma_list_slot_round_trip(addrs: Seq<MetaAddr>, i: int)
    requires
        0 <= i < addrs.len(),
        addrs.len() <= u64::MAX,
        addrs[i].addr.is_canonical_spec(),
        addrs[i].untrusted_last_seen is Some,
        addrs[i].last_response is None,
        addrs[i].last_attempt is None,
        addrs[i].last_failure is None,
        addrs[i].last_connection_state is NeverAttemptedGossiped,
    ensures
        ({
            let s = serialize_addrs_spec(addrs);
            let k = compactsize_bytes(addrs.len() as u64).len() as int;
            deserialize_meta_addr_spec(s.subrange(k + 30 * i, k + 30 * i + 30)) == Some(addrs[i])
        }),
{
    let s = serialize_addrs_spec(addrs);
    let k = compactsize_bytes(addrs.len() as u64).len() as int;
    lemma_records_bytes_len(addrs);
    vstd::arithmetic::mul::lemma_mul_inequality(i + 1, addrs.len() as int, META_ADDR_SIZE as int);
    assert((i + 1) * (META_ADDR_SIZE as int) == i * (META_ADDR_SIZE as int) + META_ADDR_SIZE);
    lemma_records_bytes_index(addrs, i);
    assert(s.subrange(k + 30 * i, k + 30 * i + 30) =~= records_bytes(addrs).subrange(
        30 * i,
        30 * i + 30,
    ));
    lemma_gossip_form_round_trip(addrs[i]);
}

/// Law: a whole gossip list of records in gossip form survives the wire
/// unchanged.
///
/// For any sequence of records shaped as sanitization leaves them, no longer
/// than one message may carry, decoding the encoded list gives back exactly
/// that sequence.
#[verifier::rlimit(100)]
pub proof fn lemma_gossip_list_round_trip(addrs: Seq<MetaAddr>)
    requires
        addrs.len() <= max_allocation_spec(),
        forall|i: int|
            0 <= i < addrs.len() ==> {
                let m = #[trigger] addrs[i];
                &&& m.addr.is_canonical_spec()
                &&& m.untrusted_last_seen is Some
                &&& m.last_response is None
                &&& m.last_attempt is None
                &&& m.last_failure is None
                &&& m.last_connection_state is NeverAttemptedGossiped
            },
    ensures
        deserialize_addrs_spec(serialize_addrs_spec(addrs)) == Some(addrs),
{
    vstd::arithmetic::div_mod::lemma_div_nonincreasing(
        MAX_PROTOCOL_MESSAGE_LEN - 3,
        META_ADDR_SIZE as int,
    );
    let n = addrs.len() as u64;
    let prefix = compactsize_bytes(n);
    let body = records_bytes(addrs);
    let s = serialize_addrs_spec(addrs);
    let k = prefix.len() as int;
    lemma_compactsize_round_trip(n, body);
    lemma_records_bytes_len(addrs);
    assert(compactsize_decode(s) == Some((n, k)));
    assert(s.len() - k == n * (META_ADDR_SIZE as int));
    let decoded = deserialize_addrs_spec(s)->Some_0;
    assert(decoded.len() == addrs.len());
    assert forall|i: int| 0 <= i < addrs.len() implies decoded[i] == addrs[i] by {
        lemma_list_slot_round_trip(addrs, i);
    }
    assert(decoded =~= addrs);
}

/// Law: a gossip list whose count exceeds the preallocation bound is
/// rejected, whatever bytes follow the count.
pub proof fn lemma_oversized_list_rejected(s: Seq<u8>)
    ensures
        compactsize_decode(s) matches Some(vk) && vk.0 > max_allocation_spec()
            ==> deserialize_addrs_spec(s) is None,
{
}

} // verus!
