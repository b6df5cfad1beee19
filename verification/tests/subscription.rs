use std::io;

use originweave_network::command_correlation::{
    WebDriverBiDiCommandCorrelation, WebDriverBiDiCommandCorrelationError, WebDriverBiDiCommandKind,
};
use originweave_network::frame_error::WebDriverBiDiWebSocketFrameError;
use originweave_network::json_envelope::{WebDriverBiDiJsonEnvelopeError, MAX_WEBDRIVER_BIDI_JS_UINT};
use originweave_network::projection_cursor::ProjectionCursor;
use originweave_network::subscription_command::{serialize_subscribe_command, settle_failed_subscription_write};
use originweave_network::subscription_response::{
    retain_validated_error_code, SubscriptionProjection, WebDriverBiDiNavigationCommittedSubscriptionResponseError,
    WebDriverBiDiNavigationCommittedSubscriptionResult, MAX_WEBDRIVER_BIDI_SUBSCRIPTION_IDENTIFIER_BYTES,
};
use originweave_network::text_message::WebDriverBiDiWebSocketTextMessage;
use originweave_network::unsubscribe_command::{
    serialize_unsubscribe_command, WebDriverBiDiNavigationCommittedUnsubscribeCommand,
    WebDriverBiDiNavigationCommittedUnsubscribeCommandError,
};
use originweave_network::unsubscribe_response::{
    WebDriverBiDiNavigationCommittedUnsubscribeResponseError, WebDriverBiDiNavigationCommittedUnsubscribeResult,
};

fn message(text: &str) -> WebDriverBiDiWebSocketTextMessage {
    WebDriverBiDiWebSocketTextMessage::new(text).expect("bounded test message")
}

#[test]
fn projection_accepts_subscription_unknown_metadata_and_escaped_keys() {
    let projected = SubscriptionProjection::parse(
        r#"{"meta":[null,true,false,1,-2.5e+3,{"nested":"value"}],"re\u0073ult":{"extra":{},"sub\u0073cription":"sub-\ud83d\ude80"}}"#,
    );
    assert!(projected.is_ok());
    assert_eq!(projected.ok().map(|value| value.subscription_id), Some("sub-🚀".to_owned()));

    let direct_utf8 = SubscriptionProjection::parse("\n\t { \r\n \"result\" : { \"subscription\" : \"구독-a\" } }");
    assert_eq!(direct_utf8.ok().map(|value| value.subscription_id), Some("구독-a".to_owned()));
}

#[test]
fn projection_rejects_missing_invalid_duplicate_and_oversized_subscription() {
    let cases = [
        (r#"{"result":{}}"#.to_owned(), "missing"),
        (r#"{"result":{"subscription":false}}"#.to_owned(), "invalid"),
        (r#"{"result":{"subscription":"a","subscription":"b"}}"#.to_owned(), "duplicate"),
        (
            format!(
                "{{\"result\":{{\"subscription\":\"{}\"}}}}",
                "x".repeat(MAX_WEBDRIVER_BIDI_SUBSCRIPTION_IDENTIFIER_BYTES + 1)
            ),
            "oversized",
        ),
        (r#"{"x":1}"#.to_owned(), "missing result"),
    ];
    for (document, label) in cases {
        assert!(SubscriptionProjection::parse(&document).is_err(), "{label}");
    }
}

#[test]
fn webdriver_bidi_navigation_committed_subscription_response_projection_cursor_rejects_malformed_private_inputs_without_panicking(
) {
    let malformed = [
        "",
        "[]",
        "{}",
        r#"{"x":}"#,
        r#"{"x" 1}"#,
        r#"{"x":1 ?}"#,
        r#"{?}"#,
        r#"{"result":[]}"#,
        r#"{"result":{?}}"#,
        r#"{"result":{"subscription" "x"}}"#,
        r#"{"result":{"subscription":"x" "extra":1}}"#,
        r#"{"result":{"subscription":"x","extra":?}}"#,
        r#"{"result":{"subscription":"\uD800"}}"#,
        r#"{"result":{"subscription":"\q"}}"#,
    ];
    for document in malformed {
        assert!(SubscriptionProjection::parse(document).is_err(), "{document}");
    }
}

#[test]
fn projection_cursor_defensive_helpers_cover_hostile_dispatch_edges() {
    let mut object = ProjectionCursor::new("[]");
    assert!(!object.skip_object());
    let mut object = ProjectionCursor::new("{}");
    assert!(object.skip_object());
    let mut object = ProjectionCursor::new("{?}");
    assert!(!object.skip_object());
    let mut object = ProjectionCursor::new(r#"{"x" 1}"#);
    assert!(!object.skip_object());
    let mut object = ProjectionCursor::new(r#"{"x":?}"#);
    assert!(!object.skip_object());
    let mut object = ProjectionCursor::new(r#"{"x":1 ?}"#);
    assert!(!object.skip_object());
    let mut object = ProjectionCursor::new(r#"{"x":1,"y":2}"#);
    assert!(object.skip_object());

    let mut array = ProjectionCursor::new("{}");
    assert!(!array.skip_array());
    let mut array = ProjectionCursor::new("[]");
    assert!(array.skip_array());
    let mut array = ProjectionCursor::new("[?]");
    assert!(!array.skip_array());
    let mut array = ProjectionCursor::new("[1 ?]");
    assert!(!array.skip_array());

    for document in [r#""x""#, "{}", "[]", "true", "false", "null", "-2.5e+3"] {
        let mut value = ProjectionCursor::new(document);
        assert!(value.skip_value(), "{document}");
    }
    let mut value = ProjectionCursor::new("?");
    assert!(!value.skip_value());

    let mut number = ProjectionCursor::new("x");
    assert!(!number.skip_number());
    let mut number = ProjectionCursor::new("+1");
    assert!(number.skip_number());

    let mut string = ProjectionCursor::new("x");
    assert!(string.parse_string().is_none());
    let mut string = ProjectionCursor::new("\"unterminated");
    assert!(string.parse_string().is_none());
    let mut string = ProjectionCursor::new("\"\u{0001}\"");
    assert!(string.parse_string().is_none());
    let mut string = ProjectionCursor::new("\"é\"");
    assert_eq!(string.parse_string().as_deref(), Some("é"));

    let mut output = String::new();
    let mut escape = ProjectionCursor::new("");
    assert!(!escape.parse_escape(&mut output));
    for sequence in ["\"", "\\", "/", "b", "f", "n", "r", "t"] {
        let mut output = String::new();
        let mut escape = ProjectionCursor::new(sequence);
        assert!(escape.parse_escape(&mut output), "{sequence:?}");
    }
    let mut output = String::new();
    let mut escape = ProjectionCursor::new("q");
    assert!(!escape.parse_escape(&mut output));

    for sequence in ["0000", "aBcD", "Ff09"] {
        let mut hex = ProjectionCursor::new(sequence);
        assert!(hex.parse_hex_u16().is_some());
    }
    let mut hex = ProjectionCursor::new("xyz1");
    assert!(hex.parse_hex_u16().is_none());
    let mut hex = ProjectionCursor::new("0");
    assert!(hex.parse_hex_u16().is_none());

    let unicode_cases = [
        ("0041", true),
        ("d83d\\ude80", true),
        ("d83d", false),
        ("d83d\\u0041", false),
        ("dc00", false),
        ("zzzz", false),
    ];
    for (sequence, expected) in unicode_cases {
        let mut output = String::new();
        let mut unicode = ProjectionCursor::new(sequence);
        assert_eq!(unicode.parse_unicode_escape(&mut output), expected);
    }
}

#[test]
fn webdriver_bidi_navigation_committed_subscription_response_response_errors_have_stable_messages_and_typed_sources(
) {
    let envelope = WebDriverBiDiNavigationCommittedSubscriptionResponseError::Envelope {
        source: WebDriverBiDiJsonEnvelopeError::InvalidJson,
    };
    assert_eq!(envelope.to_string(), "WebDriver BiDi session.subscribe envelope is invalid");
    assert!(envelope.source().is_some());

    let correlation = WebDriverBiDiNavigationCommittedSubscriptionResponseError::Correlation {
        source: WebDriverBiDiCommandCorrelationError::CommandNotOutstanding,
    };
    assert_eq!(correlation.to_string(), "WebDriver BiDi session.subscribe response correlation failed");
    assert!(correlation.source().is_some());

    let source_free = [
        WebDriverBiDiNavigationCommittedSubscriptionResponseError::MissingSubscription,
        WebDriverBiDiNavigationCommittedSubscriptionResponseError::InvalidSubscription,
        WebDriverBiDiNavigationCommittedSubscriptionResponseError::DuplicateSubscription,
        WebDriverBiDiNavigationCommittedSubscriptionResponseError::SubscriptionTooLarge {
            maximum_bytes: MAX_WEBDRIVER_BIDI_SUBSCRIPTION_IDENTIFIER_BYTES,
        },
        WebDriverBiDiNavigationCommittedSubscriptionResponseError::InvalidResultProjection,
        WebDriverBiDiNavigationCommittedSubscriptionResponseError::RemoteProtocolError {
            command_id: 7,
            error_code: "invalid argument".to_owned(),
        },
    ];
    for error in source_free {
        assert!(!error.to_string().is_empty());
        assert!(error.source().is_none());
    }
}

#[test]
fn result_debug_redacts_opaque_subscription_identifier() {
    let mut correlation = WebDriverBiDiCommandCorrelation::new();
    correlation.register_command(7).expect("registered");
    let result = WebDriverBiDiNavigationCommittedSubscriptionResult::parse_and_correlate(
        &message(r#"{"type":"success","id":7,"result":{"subscription":"sensitive-subscription"}}"#),
        &mut correlation,
    )
    .expect("bounded identifier");
    let debug = format!("{result:?}");
    assert!(debug.contains("command_id"));
    assert!(debug.contains("subscription_id_len"));
    assert!(!debug.contains("sensitive-subscription"));
    assert_eq!(result.command_id(), 7);
    assert_eq!(result.subscription_id(), "sensitive-subscription");
}

#[test]
fn retain_error_code_fails_closed_when_common_invariant_is_absent() {
    assert_eq!(retain_validated_error_code(Some("invalid argument")).as_deref(), Ok("invalid argument"));
    assert!(retain_validated_error_code(None).is_err());
}

#[test]
fn serializer_preserves_utf8_and_escapes_every_json_control_class() {
    let input = "quote\" slash\\ back\u{0008} form\u{000c} line\n return\r tab\t nul\u{0000} unit\u{0001} 구독";
    assert_eq!(
        serialize_unsubscribe_command(42, input),
        r#"{"id":42,"method":"session.unsubscribe","params":{"subscriptions":["quote\" slash\\ back\b form\f line\n return\r tab\t nul\u0000 unit\u0001 구독"]}}"#
    );
}

#[test]
fn webdriver_bidi_navigation_committed_unsubscribe_command_errors_have_stable_messages_and_typed_sources() {
    let range = WebDriverBiDiNavigationCommittedUnsubscribeCommandError::CommandIdOutOfRange {
        command_id: MAX_WEBDRIVER_BIDI_JS_UINT + 1,
        maximum_command_id: MAX_WEBDRIVER_BIDI_JS_UINT,
    };
    assert_eq!(range.to_string(), "WebDriver BiDi session.unsubscribe command id is outside the js-uint range");
    assert!(range.source().is_none());

    let correlation = WebDriverBiDiNavigationCommittedUnsubscribeCommandError::Correlation {
        source: WebDriverBiDiCommandCorrelationError::CommandAlreadyOutstanding,
    };
    assert_eq!(correlation.to_string(), "WebDriver BiDi session.unsubscribe command correlation was rejected");
    assert!(correlation.source().is_some());

    let frame = WebDriverBiDiNavigationCommittedUnsubscribeCommandError::FrameWrite {
        source: WebDriverBiDiWebSocketFrameError::FrameWriteFailed {
            bytes_written: 0,
            source: io::Error::other("test frame failure"),
        },
    };
    assert_eq!(frame.to_string(), "WebDriver BiDi session.unsubscribe command frame write failed");
    assert!(frame.source().is_some());
}

#[test]
fn webdriver_bidi_navigation_committed_unsubscribe_response_response_errors_have_stable_messages_and_typed_sources(
) {
    let envelope = WebDriverBiDiNavigationCommittedUnsubscribeResponseError::Envelope {
        source: WebDriverBiDiJsonEnvelopeError::InvalidJson,
    };
    assert_eq!(envelope.to_string(), "WebDriver BiDi session.unsubscribe envelope is invalid");
    assert!(envelope.source().is_some());

    let correlation = WebDriverBiDiNavigationCommittedUnsubscribeResponseError::Correlation {
        source: WebDriverBiDiCommandCorrelationError::CommandNotOutstanding,
    };
    assert_eq!(correlation.to_string(), "WebDriver BiDi session.unsubscribe response correlation failed");
    assert!(correlation.source().is_some());

    let remote = WebDriverBiDiNavigationCommittedUnsubscribeResponseError::RemoteProtocolError { command_id: 8 };
    assert_eq!(remote.to_string(), "WebDriver BiDi session.unsubscribe returned a protocol error");
    assert!(remote.source().is_none());
}

#[test]
fn subscription_response_consumes_its_command_and_keeps_the_identifier() {
    let mut correlation = WebDriverBiDiCommandCorrelation::new();
    correlation.register_command(3).expect("registered");
    let response = message(r#"{"type":"success","id":3,"result":{"subscription":"sub-1"}}"#);
    let result = WebDriverBiDiNavigationCommittedSubscriptionResult::parse_and_correlate(&response, &mut correlation)
        .expect("admitted");
    assert_eq!(result.command_id(), 3);
    assert_eq!(result.subscription_id(), "sub-1");
    assert_eq!(correlation.outstanding_count(), 0);

    let unsubscribe = WebDriverBiDiNavigationCommittedUnsubscribeCommand::new(4, &result).expect("in range");
    assert_eq!(
        unsubscribe.serialized(),
        r#"{"id":4,"method":"session.unsubscribe","params":{"subscriptions":["sub-1"]}}"#
    );
}

#[test]
fn subscription_remote_error_keeps_the_error_code() {
    let mut correlation = WebDriverBiDiCommandCorrelation::new();
    correlation.register_command(3).expect("registered");
    let response = message(r#"{"type":"error","id":3,"error":"no such frame","message":"gone"}"#);
    let result = WebDriverBiDiNavigationCommittedSubscriptionResult::parse_and_correlate(&response, &mut correlation);
    assert_eq!(
        result.err(),
        Some(WebDriverBiDiNavigationCommittedSubscriptionResponseError::RemoteProtocolError {
            command_id: 3,
            error_code: "no such frame".to_owned(),
        })
    );
    assert_eq!(correlation.outstanding_count(), 0);
}

#[test]
fn unsubscribe_response_acknowledges_the_outstanding_command() {
    let mut correlation = WebDriverBiDiCommandCorrelation::new();
    correlation.register_command(11).expect("registered");
    let response = message(r#"{"type":"success","id":11,"result":{}}"#);
    let result = WebDriverBiDiNavigationCommittedUnsubscribeResult::parse_and_correlate(&response, &mut correlation)
        .expect("acknowledged");
    assert_eq!(result.command_id(), 11);
    let again = WebDriverBiDiNavigationCommittedUnsubscribeResult::parse_and_correlate(&response, &mut correlation);
    assert!(matches!(
        again,
        Err(WebDriverBiDiNavigationCommittedUnsubscribeResponseError::Correlation {
            source: WebDriverBiDiCommandCorrelationError::CommandNotOutstanding
        })
    ));
}

#[test]
fn subscribe_command_text_quotes_only_quote_and_backslash() {
    assert_eq!(
        serialize_subscribe_command(42, "ctx\"\\é"),
        r#"{"id":42,"method":"session.subscribe","params":{"events":["browsingContext.navigationCommitted"],"contexts":["ctx\"\\é"]}}"#
    );
}

#[test]
fn malformed_frame_write_retires_the_subscription_again() {
    let mut correlation = WebDriverBiDiCommandCorrelation::new();
    correlation
        .register_command_for(5, WebDriverBiDiCommandKind::NavigationCommittedSubscription)
        .expect("registered");
    let written = WebDriverBiDiWebSocketFrameError::FrameWriteFailed {
        bytes_written: 3,
        source: io::Error::other("partial write"),
    };
    settle_failed_subscription_write(&mut correlation, 5, &written);
    assert!(correlation.is_outstanding(5));
    let refused = WebDriverBiDiWebSocketFrameError::MalformedFrame { reason: "mask key reused" };
    settle_failed_subscription_write(&mut correlation, 5, &refused);
    assert!(!correlation.is_outstanding(5));
}

#[test]
fn escaped_subscription_text_reads_back_exactly() {
    let input = "quote\" slash\\ back\u{0008} nul\u{0000} unit\u{001f} 구독 🚀";
    let mut quoted = String::from("\"");
    originweave_network::unsubscribe_command::push_json_string_content(&mut quoted, input);
    quoted.push('"');
    assert_eq!(
        originweave_network::script_result_projection::decode_json_string(&quoted).as_deref(),
        Ok(input)
    );
    assert!(!quoted.chars().any(|c| c <= '\u{1f}'));
}

#[test]
fn only_provably_local_frame_failures_retire_subscription_correlation() {
    let mut correlation = WebDriverBiDiCommandCorrelation::new();
    assert!(correlation.register_command_for(1, WebDriverBiDiCommandKind::NavigationCommittedSubscription).is_ok());
    let preflight = WebDriverBiDiWebSocketFrameError::MalformedFrame { reason: "test preflight rejection" };
    settle_failed_subscription_write(&mut correlation, 1, &preflight);
    assert_eq!(correlation.outstanding_count(), 0);

    assert!(correlation.register_command_for(2, WebDriverBiDiCommandKind::NavigationCommittedSubscription).is_ok());
    let ambiguous = WebDriverBiDiWebSocketFrameError::FrameWriteFailed {
        bytes_written: 1,
        source: io::Error::other("test ambiguous write failure"),
    };
    settle_failed_subscription_write(&mut correlation, 2, &ambiguous);
    assert_eq!(correlation.outstanding_count(), 1);
}

#[test]
fn pushed_json_string_content_parses_back_to_the_input_bytes() {
    let input = "tab\t quote\" solidus/ reverse\\ bell\u{0007} 🚀";
    let mut quoted = String::from("\"");
    originweave_network::unsubscribe_command::push_json_string_content(&mut quoted, input);
    quoted.push('"');
    let parsed = originweave_network::json_text::parse_string(quoted.as_bytes(), 0);
    assert_eq!(parsed, Some((quoted.len(), input.as_bytes().to_vec())));
}
