use std::cell::Cell;
use std::time::Duration;

use originweave_network::connect_retry::{
    attempt_count_is_valid, decide_after_connect_failure, is_retryable_connect_error, ConnectAttemptDecision,
    ConnectErrorKind,
};
use originweave_network::exchange_budget::{
    admit_response_fragment, max_websocket_frame_timeout, next_pong_masking_key,
    next_pong_masking_key_before_deadline, read_frame_with_exchange_budget, remaining_exchange_budget,
    remaining_frame_operation_budget, WebDriverBiDiLocateNodesExchangeError, WebDriverBiDiWebSocketMaskKey,
    MAX_WEBDRIVER_BIDI_RESPONSE_FRAGMENTS_PER_EXCHANGE,
};
use originweave_network::frame_error::WebDriverBiDiWebSocketFrameError;

#[test]
fn exchange_budget_consumes_elapsed_time_instead_of_resetting() {
    let total = Duration::from_millis(500);
    assert_eq!(format!("{:?}", remaining_exchange_budget(total, Duration::from_millis(175))), "Ok(325ms)");
    assert_eq!(
        format!("{:?}", remaining_exchange_budget(total, total)),
        "Err(ExchangeDeadlineExceeded { exchange_timeout: 500ms })"
    );
    assert_eq!(
        format!("{:?}", remaining_exchange_budget(total, Duration::from_millis(501))),
        "Err(ExchangeDeadlineExceeded { exchange_timeout: 500ms })"
    );
}

#[test]
fn exchange_budget_caps_each_frame_operation_without_resetting_total_time() {
    assert_eq!(
        remaining_frame_operation_budget(Duration::from_secs(6), Duration::ZERO).ok(),
        Some(max_websocket_frame_timeout())
    );
    assert_eq!(
        remaining_frame_operation_budget(Duration::from_secs(6), Duration::from_secs(2)).ok(),
        Some(Duration::from_secs(4))
    );
    assert!(remaining_frame_operation_budget(Duration::from_secs(6), Duration::from_secs(6)).is_err());
}

#[test]
fn expired_exchange_budget_refuses_frame_read_before_io() {
    let exchange_timeout = Duration::from_millis(500);
    let read_count = Cell::new(0_usize);
    let read_frame = |remaining_timeout| {
        read_count.set(read_count.get() + 1);
        Ok::<Duration, WebDriverBiDiWebSocketFrameError>(remaining_timeout)
    };
    let available = read_frame_with_exchange_budget(exchange_timeout, Duration::from_millis(100), read_frame);
    assert_eq!(available.ok(), Some(Duration::from_millis(400)));
    assert_eq!(read_count.get(), 1);

    let expired = read_frame_with_exchange_budget(exchange_timeout, exchange_timeout, read_frame);
    assert_eq!(format!("{expired:?}"), "Err(ExchangeDeadlineExceeded { exchange_timeout: 500ms })");
    assert_eq!(read_count.get(), 1);

    let frame_error = read_frame_with_exchange_budget(exchange_timeout, Duration::from_millis(100), |_| {
        Err::<Duration, WebDriverBiDiWebSocketFrameError>(WebDriverBiDiWebSocketFrameError::InvalidFrameTimeout {
            frame_timeout: Duration::ZERO,
            maximum_timeout: max_websocket_frame_timeout(),
        })
    });
    assert!(frame_error.is_err());
}

#[test]
fn pong_masking_key_source_fails_closed_when_entropy_is_unavailable() {
    let expected = WebDriverBiDiWebSocketMaskKey::new([1, 2, 3, 4]);
    let mut available = || Some(expected);
    assert_eq!(next_pong_masking_key(&mut available).ok(), Some(expected));

    let mut unavailable = || None;
    assert_eq!(format!("{:?}", next_pong_masking_key(&mut unavailable)), "Err(PongMaskingKeyUnavailable)");
}

#[test]
fn pong_entropy_is_not_drawn_after_exchange_deadline() {
    let expected = WebDriverBiDiWebSocketMaskKey::new([0x11, 0x22, 0x33, 0x44]);
    let draw_count = Cell::new(0_usize);
    let mut next = || {
        draw_count.set(draw_count.get() + 1);
        Some(expected)
    };
    assert_eq!(next(), Some(expected));
    draw_count.set(0);
    let deadline_result =
        next_pong_masking_key_before_deadline(&mut next, Duration::from_millis(500), Duration::from_millis(500));
    assert_eq!(format!("{deadline_result:?}"), "Err(ExchangeDeadlineExceeded { exchange_timeout: 500ms })");
    assert_eq!(draw_count.get(), 0);

    let mut available = || Some(expected);
    assert_eq!(
        next_pong_masking_key_before_deadline(&mut available, Duration::from_millis(500), Duration::from_millis(100))
            .ok(),
        Some(expected)
    );
}

#[test]
fn response_fragments_are_counted_up_to_the_budget() {
    let mut count = MAX_WEBDRIVER_BIDI_RESPONSE_FRAGMENTS_PER_EXCHANGE - 1;
    assert!(admit_response_fragment(&mut count).is_ok());
    assert_eq!(count, MAX_WEBDRIVER_BIDI_RESPONSE_FRAGMENTS_PER_EXCHANGE);
    let refused = admit_response_fragment(&mut count);
    assert!(matches!(
        refused,
        Err(WebDriverBiDiLocateNodesExchangeError::ResponseFragmentLimitExceeded { maximum_fragments: 256 })
    ));
    assert_eq!(count, MAX_WEBDRIVER_BIDI_RESPONSE_FRAGMENTS_PER_EXCHANGE);
}

#[test]
fn frame_budget_ceiling_is_five_seconds() {
    assert_eq!(max_websocket_frame_timeout(), Duration::from_secs(5));
    assert_eq!(
        remaining_frame_operation_budget(Duration::from_secs(5), Duration::from_nanos(1)).ok(),
        Some(Duration::from_nanos(4_999_999_999))
    );
}

#[test]
fn retryable_connect_error_kinds_are_explicit_and_conservative() {
    for kind in [
        ConnectErrorKind::TimedOut,
        ConnectErrorKind::ConnectionRefused,
        ConnectErrorKind::ConnectionReset,
        ConnectErrorKind::ConnectionAborted,
        ConnectErrorKind::Interrupted,
    ] {
        assert!(is_retryable_connect_error(kind), "{kind:?} must retry");
    }
    for kind in [ConnectErrorKind::PermissionDenied, ConnectErrorKind::InvalidInput, ConnectErrorKind::AddrNotAvailable] {
        assert!(!is_retryable_connect_error(kind), "{kind:?} must fail fast");
    }
}

#[test]
fn connect_loop_retries_transient_failures_only_within_the_plan() {
    assert_eq!(
        decide_after_connect_failure(1, 3, ConnectErrorKind::TimedOut),
        ConnectAttemptDecision::Retry { next_attempt: 2 }
    );
    assert_eq!(
        decide_after_connect_failure(3, 3, ConnectErrorKind::TimedOut),
        ConnectAttemptDecision::TimedOut { attempt_count: 3 }
    );
    assert_eq!(
        decide_after_connect_failure(2, 2, ConnectErrorKind::ConnectionRefused),
        ConnectAttemptDecision::Failed { attempt_count: 2 }
    );
    assert_eq!(
        decide_after_connect_failure(1, 4, ConnectErrorKind::PermissionDenied),
        ConnectAttemptDecision::Failed { attempt_count: 1 }
    );
    assert!(!attempt_count_is_valid(0));
    assert!(attempt_count_is_valid(4));
    assert!(!attempt_count_is_valid(5));
}
