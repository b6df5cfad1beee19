use std::io;

use originweave_network::command_correlation::{
    WebDriverBiDiCommandCorrelation, WebDriverBiDiCommandCorrelationError, WebDriverBiDiCommandKind,
};
use originweave_network::frame_error::WebDriverBiDiWebSocketFrameError;
use originweave_network::json_envelope::MAX_WEBDRIVER_BIDI_JS_UINT;
use originweave_network::received_message::WebDriverBiDiConnectionGenerationCounter;
use originweave_network::session_end_command::{WebDriverBiDiSessionEndCommand, WebDriverBiDiSessionEndCommandError};
use originweave_network::session_status_command::{
    WebDriverBiDiSessionStatusCommand, WebDriverBiDiSessionStatusCommandError,
};

#[test]
fn correlation_errors_have_stable_nonempty_operator_messages() {
    let cases = [
        (
            WebDriverBiDiCommandCorrelationError::CommandIdOutOfRange,
            "WebDriver BiDi command id is outside the js-uint range",
        ),
        (
            WebDriverBiDiCommandCorrelationError::CommandAlreadyOutstanding,
            "WebDriver BiDi command id is already outstanding",
        ),
        (
            WebDriverBiDiCommandCorrelationError::OutstandingCommandLimit,
            "WebDriver BiDi outstanding-command limit reached",
        ),
        (
            WebDriverBiDiCommandCorrelationError::CommandNotOutstanding,
            "WebDriver BiDi command id is not outstanding",
        ),
        (
            WebDriverBiDiCommandCorrelationError::CommandKindMismatch,
            "WebDriver BiDi response command kind does not match the outstanding command",
        ),
        (
            WebDriverBiDiCommandCorrelationError::EventIsNotResponse,
            "WebDriver BiDi event cannot be correlated as a response",
        ),
        (
            WebDriverBiDiCommandCorrelationError::UncorrelatableErrorResponse,
            "WebDriver BiDi error response has no correlatable command id",
        ),
    ];
    for (error, expected) in cases {
        assert_eq!(error.to_string(), expected);
    }
}

#[test]
fn constructor_rejects_ids_outside_the_webdriver_bidi_js_uint_range() {
    let rejected = WebDriverBiDiSessionStatusCommand::new(MAX_WEBDRIVER_BIDI_JS_UINT + 1);
    assert!(matches!(
        rejected,
        Err(WebDriverBiDiSessionStatusCommandError::CommandIdOutOfRange {
            maximum_command_id: MAX_WEBDRIVER_BIDI_JS_UINT,
            ..
        })
    ));
}

#[test]
fn webdriver_bidi_session_status_command_command_serialization_is_static_and_exact() {
    let command = WebDriverBiDiSessionStatusCommand::new(42).expect("in range");
    assert_eq!(command.command_id(), 42);
    assert_eq!(command.serialized(), r#"{"id":42,"method":"session.status","params":{}}"#);
}

#[test]
fn webdriver_bidi_session_status_command_command_errors_have_stable_messages_and_typed_sources() {
    let range = WebDriverBiDiSessionStatusCommandError::CommandIdOutOfRange {
        command_id: MAX_WEBDRIVER_BIDI_JS_UINT + 1,
        maximum_command_id: MAX_WEBDRIVER_BIDI_JS_UINT,
    };
    assert_eq!(range.to_string(), "WebDriver BiDi session.status command id is outside the js-uint range");
    assert!(range.source().is_none());

    let correlation = WebDriverBiDiSessionStatusCommandError::Correlation {
        source: WebDriverBiDiCommandCorrelationError::CommandAlreadyOutstanding,
    };
    assert_eq!(correlation.to_string(), "WebDriver BiDi session.status command correlation was rejected");
    assert!(correlation.source().is_some());

    let frame = WebDriverBiDiSessionStatusCommandError::FrameWrite {
        source: WebDriverBiDiWebSocketFrameError::FrameWriteFailed {
            bytes_written: 0,
            source: io::Error::other("test frame failure"),
        },
    };
    assert_eq!(frame.to_string(), "WebDriver BiDi session.status command frame write failed");
    assert!(frame.source().is_some());
}

#[test]
fn constructor_enforces_the_webdriver_bidi_js_uint_range() {
    let accepted = WebDriverBiDiSessionEndCommand::new(MAX_WEBDRIVER_BIDI_JS_UINT);
    assert_eq!(accepted.ok().map(|command| command.command_id()), Some(MAX_WEBDRIVER_BIDI_JS_UINT));

    let rejected = WebDriverBiDiSessionEndCommand::new(MAX_WEBDRIVER_BIDI_JS_UINT + 1);
    assert_eq!(
        rejected.err().map(|error| error.to_string()).as_deref(),
        Some("WebDriver BiDi session.end command id is outside the js-uint range")
    );
}

#[test]
fn webdriver_bidi_session_end_command_command_serialization_is_static_and_exact() {
    let command = WebDriverBiDiSessionEndCommand::new(42).expect("in range");
    assert_eq!(command.command_id(), 42);
    assert_eq!(command.serialized(), r#"{"id":42,"method":"session.end","params":{}}"#);
}

#[test]
fn webdriver_bidi_session_end_command_command_errors_have_stable_messages_and_typed_sources() {
    let range = WebDriverBiDiSessionEndCommandError::CommandIdOutOfRange {
        command_id: MAX_WEBDRIVER_BIDI_JS_UINT + 1,
        maximum_command_id: MAX_WEBDRIVER_BIDI_JS_UINT,
    };
    assert_eq!(range.to_string(), "WebDriver BiDi session.end command id is outside the js-uint range");
    assert!(range.source().is_none());

    let correlation = WebDriverBiDiSessionEndCommandError::Correlation {
        source: WebDriverBiDiCommandCorrelationError::CommandAlreadyOutstanding,
    };
    assert_eq!(correlation.to_string(), "WebDriver BiDi session.end command correlation was rejected");
    assert!(correlation.source().is_some());

    let frame = WebDriverBiDiSessionEndCommandError::FrameWrite {
        source: WebDriverBiDiWebSocketFrameError::FrameWriteFailed {
            bytes_written: 0,
            source: io::Error::other("test frame failure"),
        },
    };
    assert_eq!(frame.to_string(), "WebDriver BiDi session.end command frame write failed");
    assert!(frame.source().is_some());
}

#[test]
fn session_status_send_registers_before_returning_the_exact_text() {
    let mut correlation = WebDriverBiDiCommandCorrelation::new();
    let command = WebDriverBiDiSessionStatusCommand::new(5).expect("in range");
    let text = command.send(&mut correlation).expect("registered");
    assert_eq!(text, r#"{"id":5,"method":"session.status","params":{}}"#);
    assert!(correlation.is_outstanding(5));

    let again = WebDriverBiDiSessionStatusCommand::new(5).expect("in range").send(&mut correlation);
    assert!(matches!(
        again,
        Err(WebDriverBiDiSessionStatusCommandError::Correlation {
            source: WebDriverBiDiCommandCorrelationError::CommandAlreadyOutstanding
        })
    ));
    assert_eq!(correlation.outstanding_count(), 1);
}

#[test]
fn session_end_send_binds_the_command_to_its_connection() {
    let mut correlation = WebDriverBiDiCommandCorrelation::new();
    let mut generations = WebDriverBiDiConnectionGenerationCounter::new();
    let generation = generations.allocate().expect("generation available");
    let text = WebDriverBiDiSessionEndCommand::new(9).expect("in range").send(&mut correlation, generation);
    assert_eq!(text.ok().as_deref(), Some(r#"{"id":9,"method":"session.end","params":{}}"#));
    assert!(correlation.is_outstanding(9));
    assert_eq!(correlation.retire_command_for(9, WebDriverBiDiCommandKind::SessionStatus),
        Err(WebDriverBiDiCommandCorrelationError::CommandKindMismatch));
    assert_eq!(correlation.retire_command_for(9, WebDriverBiDiCommandKind::SessionEnd), Ok(()));
    assert_eq!(correlation.outstanding_count(), 0);
}

#[test]
fn correlation_budget_refuses_the_command_past_the_limit() {
    let mut correlation = WebDriverBiDiCommandCorrelation::new();
    for id in 0..256u64 {
        assert_eq!(correlation.register_command(id), Ok(()));
    }
    assert_eq!(
        correlation.register_command(1_000),
        Err(WebDriverBiDiCommandCorrelationError::OutstandingCommandLimit)
    );
    assert_eq!(
        correlation.register_command(MAX_WEBDRIVER_BIDI_JS_UINT + 1),
        Err(WebDriverBiDiCommandCorrelationError::CommandIdOutOfRange)
    );
    assert_eq!(correlation.outstanding_count(), 256);
}
