use originweave_network::exchange_budget::{WebDriverBiDiLocateNodesExchangeError, WebDriverBiDiWebSocketMaskKey};
use originweave_network::exchange_state::{
    WebDriverBiDiExchangeAction, WebDriverBiDiExchangeState, OPCODE_CONTINUATION, OPCODE_PING, OPCODE_PONG,
    OPCODE_TEXT,
};

fn state(maximum: usize) -> WebDriverBiDiExchangeState {
    WebDriverBiDiExchangeState::new(WebDriverBiDiWebSocketMaskKey::new([1, 2, 3, 4]), maximum)
}

#[test]
fn single_text_frame_completes_the_response() {
    let mut exchange = state(64);
    assert_eq!(
        exchange.on_frame(true, OPCODE_TEXT, b"{\"id\":1}").ok(),
        Some(WebDriverBiDiExchangeAction::Complete(b"{\"id\":1}".to_vec()))
    );
}

#[test]
fn fragments_assemble_in_order_with_control_frames_between() {
    let mut exchange = state(64);
    assert_eq!(exchange.on_frame(false, OPCODE_TEXT, b"ab").ok(), Some(WebDriverBiDiExchangeAction::ReadNext));
    assert_eq!(exchange.on_frame(true, OPCODE_PING, b"p").ok(), Some(WebDriverBiDiExchangeAction::AnswerPing));
    assert!(exchange.accept_pong_key(WebDriverBiDiWebSocketMaskKey::new([9, 9, 9, 9])).is_ok());
    assert_eq!(exchange.on_frame(true, OPCODE_PONG, b"").ok(), Some(WebDriverBiDiExchangeAction::ReadNext));
    assert_eq!(exchange.on_frame(false, OPCODE_CONTINUATION, b"cd").ok(), Some(WebDriverBiDiExchangeAction::ReadNext));
    assert_eq!(
        exchange.on_frame(true, OPCODE_CONTINUATION, b"ef").ok(),
        Some(WebDriverBiDiExchangeAction::Complete(b"abcdef".to_vec()))
    );
}

#[test]
fn pong_key_must_differ_from_the_previous_client_frame() {
    let mut exchange = state(64);
    assert!(matches!(
        exchange.accept_pong_key(WebDriverBiDiWebSocketMaskKey::new([1, 2, 3, 4])),
        Err(WebDriverBiDiLocateNodesExchangeError::PongMaskingKeyReused)
    ));
    assert!(exchange.accept_pong_key(WebDriverBiDiWebSocketMaskKey::new([5, 6, 7, 8])).is_ok());
    assert!(matches!(
        exchange.accept_pong_key(WebDriverBiDiWebSocketMaskKey::new([5, 6, 7, 8])),
        Err(WebDriverBiDiLocateNodesExchangeError::PongMaskingKeyReused)
    ));
    assert!(exchange.accept_pong_key(WebDriverBiDiWebSocketMaskKey::new([1, 2, 3, 4])).is_ok());
}

#[test]
fn control_frames_are_bounded_per_exchange() {
    let mut exchange = state(64);
    for _ in 0..64 {
        assert_eq!(exchange.on_frame(true, OPCODE_PONG, b"").ok(), Some(WebDriverBiDiExchangeAction::ReadNext));
    }
    assert!(matches!(
        exchange.on_frame(true, OPCODE_PING, b""),
        Err(WebDriverBiDiLocateNodesExchangeError::ControlFrameLimitExceeded { maximum_control_frames: 64 })
    ));
}

#[test]
fn orphan_continuations_other_opcodes_and_oversized_messages_are_refused() {
    let mut exchange = state(4);
    assert!(matches!(
        exchange.on_frame(true, OPCODE_CONTINUATION, b"x"),
        Err(WebDriverBiDiLocateNodesExchangeError::UnexpectedResponseFrame { fin: true, opcode: 0 })
    ));
    assert!(matches!(
        exchange.on_frame(true, 0x2, b"x"),
        Err(WebDriverBiDiLocateNodesExchangeError::UnexpectedResponseFrame { fin: true, opcode: 2 })
    ));
    assert_eq!(exchange.on_frame(false, OPCODE_TEXT, b"abc").ok(), Some(WebDriverBiDiExchangeAction::ReadNext));
    assert!(matches!(
        exchange.on_frame(false, OPCODE_TEXT, b"x"),
        Err(WebDriverBiDiLocateNodesExchangeError::UnexpectedResponseFrame { fin: false, opcode: 1 })
    ));
    assert!(matches!(
        exchange.on_frame(true, OPCODE_CONTINUATION, b"de"),
        Err(WebDriverBiDiLocateNodesExchangeError::ResponseDocumentTooLarge { maximum_bytes: 4 })
    ));
    assert_eq!(
        exchange.on_frame(true, OPCODE_CONTINUATION, b"d").ok(),
        Some(WebDriverBiDiExchangeAction::Complete(b"abcd".to_vec()))
    );
}

#[test]
fn response_fragments_are_bounded_per_message() {
    let mut exchange = state(1_000);
    assert_eq!(exchange.on_frame(false, OPCODE_TEXT, b"").ok(), Some(WebDriverBiDiExchangeAction::ReadNext));
    for _ in 1..256 {
        assert_eq!(
            exchange.on_frame(false, OPCODE_CONTINUATION, b"").ok(),
            Some(WebDriverBiDiExchangeAction::ReadNext)
        );
    }
    assert!(matches!(
        exchange.on_frame(true, OPCODE_CONTINUATION, b""),
        Err(WebDriverBiDiLocateNodesExchangeError::ResponseFragmentLimitExceeded { maximum_fragments: 256 })
    ));
}
