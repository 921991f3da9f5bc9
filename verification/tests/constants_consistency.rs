//! Consistency checks over the timing constants.

use zebra_network::constants::{
    EWMA_DECAY_TIME, EWMA_DEFAULT_RTT, HANDSHAKE_TIMEOUT, HEARTBEAT_INTERVAL,
    MIN_PEER_RECONNECTION_DELAY, REQUEST_TIMEOUT,
};

/// This assures that the value we are computing for
/// MIN_PEER_RECONNECTION_DELAY actually matches the other const values it
/// relies on.
#[test]
fn ensure_live_peer_duration_value_matches_others() {
    let constructed_live_peer_duration =
        HEARTBEAT_INTERVAL + REQUEST_TIMEOUT + REQUEST_TIMEOUT + REQUEST_TIMEOUT;

    assert_eq!(MIN_PEER_RECONNECTION_DELAY, constructed_live_peer_duration);
}

/// Make sure that the timeout values are consistent with each other.
#[test]
fn ensure_timeouts_consistent() {
    assert!(
        HANDSHAKE_TIMEOUT <= REQUEST_TIMEOUT,
        "Handshakes are requests, so the handshake timeout can't be longer than the timeout for all requests."
    );
    assert!(
        EWMA_DEFAULT_RTT > REQUEST_TIMEOUT,
        "The default EWMA RTT should be higher than the request timeout, so new peers must prove they are fast, before we prefer them to other peers."
    );
    assert!(
        EWMA_DECAY_TIME > REQUEST_TIMEOUT,
        "The EWMA decay time should be higher than the request timeout, so timed out peers are penalised by the EWMA."
    );
}

#[test]
fn user_agent_is_expected_string() {
    assert_eq!(zebra_network::constants::user_agent(), "/Zebra:1.0.0-alpha.15/");
}

#[test]
fn magic_bytes_identify_networks() {
    assert_eq!(zebra_network::constants::magic_mainnet(), [0x24, 0xe9, 0x27, 0x64]);
    assert_eq!(zebra_network::constants::magic_testnet(), [0xfa, 0x1a, 0xf9, 0xbf]);
}
