use std::time::Duration;

use originweave_network::connect_retry::{
    check_observed_peer, check_origin_port, max_connect_timeout, validate_connect_budget,
    validate_connection_plan, ConnectionPlanError, PeerMismatch, SocketAddress, MAX_CONNECTION_ATTEMPTS,
    MAX_CONNECT_TIMEOUT_SECS,
};

fn max_timeout() -> Duration {
    Duration::from_secs(MAX_CONNECT_TIMEOUT_SECS)
}

#[test]
fn validates_timeout_and_attempt_bounds_before_io() {
    let zero_timeout = validate_connect_budget(Duration::ZERO, 1);
    assert!(matches!(zero_timeout, Err(ConnectionPlanError::InvalidConnectTimeout { .. })));

    let excessive_timeout = validate_connect_budget(max_timeout() + Duration::from_nanos(1), 1);
    assert!(matches!(excessive_timeout, Err(ConnectionPlanError::InvalidConnectTimeout { .. })));

    let zero_attempts = validate_connect_budget(Duration::from_millis(250), 0);
    assert!(matches!(zero_attempts, Err(ConnectionPlanError::InvalidAttemptCount { .. })));

    let excessive_attempts = validate_connect_budget(Duration::from_millis(250), MAX_CONNECTION_ATTEMPTS + 1);
    assert!(matches!(excessive_attempts, Err(ConnectionPlanError::InvalidAttemptCount { .. })));
}

#[test]
fn origin_port_mismatch_error_is_deterministic_and_source_free() {
    let error = ConnectionPlanError::OriginPortMismatch { requested_port: 8080, expected_port: 80 };
    assert_eq!(error.to_string(), "socket port 8080 does not match canonical origin port 80");
    assert!(error.source().is_none());
    assert_eq!(error.attempt_count(), None);
}

#[test]
fn plan_validation_checks_port_then_timeout_then_attempts() {
    assert_eq!(max_connect_timeout(), Duration::from_secs(30));
    assert!(validate_connection_plan(80, Duration::from_secs(1), 1).is_ok());
    assert!(validate_connection_plan(80, max_timeout(), MAX_CONNECTION_ATTEMPTS).is_ok());
    assert!(matches!(
        validate_connection_plan(0, Duration::ZERO, 0),
        Err(ConnectionPlanError::InvalidPort)
    ));
    match validate_connection_plan(80, Duration::ZERO, 0) {
        Err(ConnectionPlanError::InvalidConnectTimeout { connect_timeout, maximum_timeout }) => {
            assert_eq!(connect_timeout, Duration::ZERO);
            assert_eq!(maximum_timeout, max_timeout());
        }
        other => panic!("unexpected {other:?}"),
    }
    match validate_connection_plan(80, Duration::from_secs(1), MAX_CONNECTION_ATTEMPTS + 1) {
        Err(ConnectionPlanError::InvalidAttemptCount { attempt_count, maximum_attempts }) => {
            assert_eq!(attempt_count, 5);
            assert_eq!(maximum_attempts, 4);
        }
        other => panic!("unexpected {other:?}"),
    }
}

#[test]
fn plan_refusals_describe_themselves() {
    assert_eq!(ConnectionPlanError::InvalidPort.to_string(), "connection port must be within 1..=65535");
    let timeout = ConnectionPlanError::InvalidConnectTimeout {
        connect_timeout: Duration::ZERO,
        maximum_timeout: max_timeout(),
    };
    assert_eq!(timeout.to_string(), "connect timeout 0ns is outside 1ns..=30s");
    let attempts = ConnectionPlanError::InvalidAttemptCount { attempt_count: 0, maximum_attempts: 4 };
    assert_eq!(attempts.to_string(), "connection attempt count 0 is outside 1..=4");
    assert!(attempts.source().is_none());
}

#[test]
fn origin_port_must_be_the_effective_port() {
    assert!(check_origin_port(443, 443).is_ok());
    assert!(matches!(
        check_origin_port(8080, 80),
        Err(ConnectionPlanError::OriginPortMismatch { requested_port: 8080, expected_port: 80 })
    ));
}

#[test]
fn peer_mismatch_is_not_converted_to_success() {
    let requested = SocketAddress::V4 { address: 0x7f00_0001, port: 9515 };
    let wrong_peer = SocketAddress::V4 { address: 0x7f00_0001, port: 9516 };
    assert_eq!(check_observed_peer(requested, requested, 1), Ok(()));
    assert_eq!(
        check_observed_peer(requested, wrong_peer, 1),
        Err(PeerMismatch { socket_address: requested, observed_peer: wrong_peer, attempt_number: 1 })
    );
    let v6 = SocketAddress::V6 { address: 1, port: 443, flowinfo: 0, scope_id: 0 };
    let scoped = SocketAddress::V6 { address: 1, port: 443, flowinfo: 0, scope_id: 1 };
    assert!(check_observed_peer(v6, scoped, 2).is_err());
    assert!(check_observed_peer(v6, requested, 2).is_err());
}
