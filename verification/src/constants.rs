//! Timing and protocol constants consumed by the peer-set components around
//! this crate, together with proofs that they are consistent with each other.
//!
//! Durations are plain integers: seconds in a `u32` unless a constant's doc
//! comment says otherwise.

use vstd::prelude::*;

verus! {

/// The buffer size for the peer set.
///
/// Greater than 1 to avoid sender contention, but small enough that the queue
/// of in-flight block downloads stays short.
pub const PEERSET_BUFFER_SIZE: usize = 3;

/// The timeout for requests made to a remote peer, in seconds.
pub const REQUEST_TIMEOUT: u32 = 20;

/// The timeout for handshakes when connecting to new peers, in seconds.
///
/// Kept small so that slow peers do not get into the peer set.
pub const HANDSHAKE_TIMEOUT: u32 = 4;

/// The timeout for DNS lookups, in seconds.
pub const DNS_LOOKUP_TIMEOUT: u32 = 5;

/// We expect to receive a message from a live peer at least once in this
/// interval, in seconds.
///
/// This is the sum of the heartbeat interval, the timeout of a possible
/// pending (already-sent) request, the timeout for a possible queued request,
/// and the timeout for the heartbeat request itself.
pub const MIN_PEER_RECONNECTION_DELAY: u32 = 60 + 20 + 20 + 20;

/// The maximum time since a peer was last seen for it to still be considered
/// reachable and worth gossiping, in seconds (three hours).
pub const MAX_PEER_ACTIVE_FOR_GOSSIP: u32 = 3 * 60 * 60;

/// Regular interval for sending keepalive pings to each connected peer, in
/// seconds.
pub const HEARTBEAT_INTERVAL: u32 = 60;

/// The minimum time between successive outbound connection attempts, in
/// milliseconds.
pub const MIN_PEER_CONNECTION_INTERVAL: u64 = 100;

/// The minimum time between successive requests for more peer addresses, in
/// seconds.
pub const MIN_PEER_GET_ADDR_INTERVAL: u32 = 10;

/// The number of address-crawl requests sent when looking for new peers.
///
/// Greater than 2, so the initial address book is not dominated by a single
/// peer's answers.
pub const GET_ADDR_FANOUT: usize = 3;

/// Timestamps in outbound address messages are truncated to a multiple of
/// this interval, in seconds, so a peer cannot learn exactly when we received
/// messages from each of our peers.
pub const TIMESTAMP_TRUNCATION_SECONDS: u32 = 30 * 60;

/// The network protocol version implemented by this crate, advertised during
/// connection setup.
pub const CURRENT_NETWORK_PROTOCOL_VERSION: u32 = 170_013;

/// The default round-trip-time estimate for peer responses, in seconds.
///
/// Slightly higher than the request timeout, so that new peers must prove
/// they are fast before they are preferred to known peers.
pub const EWMA_DEFAULT_RTT: u32 = REQUEST_TIMEOUT + 1;

/// The decay time for the exponentially-weighted moving average of peer
/// response times, in seconds.
pub const EWMA_DECAY_TIME: u32 = 200;

/// The maximum size of a protocol message, in bytes.
pub const MAX_PROTOCOL_MESSAGE_LEN: usize = 2 * 1024 * 1024;

/// The user-agent string advertised during handshakes.
pub fn user_agent() -> (r: &'static str)
    ensures
        r@ == "/Zebra:1.0.0-alpha.15/"@,
{
    "/Zebra:1.0.0-alpha.15/"
}

/// The magic bytes identifying the production network on the wire.
pub fn magic_mainnet() -> (r: [u8; 4])
    ensures
        r@ == seq![0x24u8, 0xe9u8, 0x27u8, 0x64u8],
{
    let r: [u8; 4] = [0x24, 0xe9, 0x27, 0x64];
    assert(r@ =~= seq![0x24u8, 0xe9u8, 0x27u8, 0x64u8]);
    r
}

/// The magic bytes identifying the test network on the wire.
pub fn magic_testnet() -> (r: [u8; 4])
    ensures
        r@ == seq![0xfau8, 0x1au8, 0xf9u8, 0xbfu8],
{
    let r: [u8; 4] = [0xfa, 0x1a, 0xf9, 0xbf];
    assert(r@ =~= seq![0xfau8, 0x1au8, 0xf9u8, 0xbfu8]);
    r
}

/// Law: the reconnection delay is exactly one heartbeat interval plus three
/// request timeouts, so the delay matches the worst case of one heartbeat, a
/// pending request, a queued request, and the heartbeat request itself.
pub proof fn lemma_reconnection_delay_composition()
    ensures
        MIN_PEER_RECONNECTION_DELAY == HEARTBEAT_INTERVAL + 3 * REQUEST_TIMEOUT,
{
}

/// Law: the timeout constants are consistent with each other.
///
/// Handshakes are requests, so the handshake timeout cannot exceed the
/// request timeout; the default round-trip-time estimate and the decay time
/// both exceed the request timeout, so new and timed-out peers must prove
/// themselves before being preferred.
pub proof fn lemma_timeouts_consistent()
    ensures
        HANDSHAKE_TIMEOUT <= REQUEST_TIMEOUT,
        EWMA_DEFAULT_RTT > REQUEST_TIMEOUT,
        EWMA_DECAY_TIME > REQUEST_TIMEOUT,
{
}

} // verus!
