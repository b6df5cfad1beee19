use originweave_network::command_correlation::{
    WebDriverBiDiCommandCorrelation, WebDriverBiDiCommandCorrelationError, WebDriverBiDiCommandKind,
};
use originweave_network::json_envelope::WebDriverBiDiJsonEnvelopeError;
use originweave_network::navigation_postcondition::{
    NavigationCommittedProjection, WebDriverBiDiNavigationCommittedProjectionError,
    MAX_WEBDRIVER_BIDI_NAVIGATION_URL_BYTES,
};
use originweave_network::pointer_click_response::{WebDriverBiDiPointerClickResponseError, WebDriverBiDiPointerClickResult};
use originweave_network::received_message::{WebDriverBiDiConnectionGenerationCounter, WebDriverBiDiConnectionInbox};
use originweave_network::session_end_response::{WebDriverBiDiSessionEndResponseError, WebDriverBiDiSessionEndResult};
use originweave_network::session_status_response::{
    StatusProjection, WebDriverBiDiSessionStatusResponseError, WebDriverBiDiSessionStatusResult,
    MAX_WEBDRIVER_BIDI_SESSION_STATUS_MESSAGE_SIZE,
};
use originweave_network::text_message::WebDriverBiDiWebSocketTextMessage;
use originweave_network::json_envelope::MAX_WEBDRIVER_BIDI_JS_UINT;
use originweave_network::navigation_postcondition::{MAX_EXTERNAL_BROWSER_IDENTIFIER_BYTES, MAX_WEBDRIVER_BIDI_NAVIGATION_IDENTIFIER_BYTES};
use originweave_network::projection_cursor::ProjectionCursor;
use originweave_network::text_policy::protocol_identifier_is_valid;

fn message(text: &str) -> WebDriverBiDiWebSocketTextMessage {
    WebDriverBiDiWebSocketTextMessage::new(text).expect("bounded test message")
}

#[test]
fn projection_accepts_required_fields_unknown_metadata_and_escaped_keys() {
    let projected = StatusProjection::parse(
        r#"{"meta":[null,true,false,1,-2.5e+3,{"nested":"value"}],"re\u0073ult":{"message":"re\u0061dy \ud83d\ude80","extra":{},"ready":false}}"#,
    );
    assert!(projected.is_ok());
    let projected = projected.ok();
    assert_eq!(projected.as_ref().map(|value| value.ready), Some(false));
    assert_eq!(projected.as_ref().map(|value| value.message.as_str()), Some("ready 🚀"));
}

#[test]
fn projection_rejects_missing_invalid_duplicate_and_oversized_required_fields() {
    let cases = [
        (r#"{"result":{"message":"x"}}"#.to_owned(), "missing ready"),
        (r#"{"result":{"ready":0,"message":"x"}}"#.to_owned(), "invalid ready"),
        (r#"{"result":{"ready":true}}"#.to_owned(), "missing message"),
        (r#"{"result":{"ready":true,"message":false}}"#.to_owned(), "invalid message"),
        (r#"{"result":{"ready":true,"ready":false,"message":"x"}}"#.to_owned(), "duplicate ready"),
        (r#"{"result":{"ready":true,"message":"x","message":"y"}}"#.to_owned(), "duplicate message"),
        (
            format!(
                "{{\"result\":{{\"ready\":true,\"message\":\"{}\"}}}}",
                "x".repeat(MAX_WEBDRIVER_BIDI_SESSION_STATUS_MESSAGE_SIZE + 1)
            ),
            "oversized message",
        ),
    ];
    for (document, label) in cases {
        assert!(StatusProjection::parse(&document).is_err(), "{label}");
    }
}

#[test]
fn webdriver_bidi_session_status_response_projection_cursor_rejects_malformed_private_inputs_without_panicking() {
    let malformed = [
        "",
        "[]",
        "{}",
        r#"{"x":}"#,
        r#"{"x":1}"#,
        r#"{"result":[]}"#,
        r#"{"result":{"ready":true,"message":"\uD800"}}"#,
        r#"{"result":{"ready":true,"message":"\q"}}"#,
    ];
    for document in malformed {
        assert!(StatusProjection::parse(document).is_err());
    }
}

#[test]
fn response_errors_have_stable_redacted_messages_and_sources() {
    let envelope = WebDriverBiDiSessionStatusResponseError::Envelope { source: WebDriverBiDiJsonEnvelopeError::InvalidJson };
    assert!(envelope.source().is_some());
    assert_eq!(envelope.to_string(), "WebDriver BiDi session.status envelope is invalid");

    let correlation = WebDriverBiDiSessionStatusResponseError::Correlation {
        source: WebDriverBiDiCommandCorrelationError::CommandNotOutstanding,
    };
    assert!(correlation.source().is_some());
    assert_eq!(correlation.to_string(), "WebDriver BiDi session.status response correlation failed");

    let leaf_errors = [
        WebDriverBiDiSessionStatusResponseError::MissingReady,
        WebDriverBiDiSessionStatusResponseError::InvalidReady,
        WebDriverBiDiSessionStatusResponseError::MissingMessage,
        WebDriverBiDiSessionStatusResponseError::InvalidMessage,
        WebDriverBiDiSessionStatusResponseError::DuplicateResultMember { member: "ready" },
        WebDriverBiDiSessionStatusResponseError::MessageTooLarge { maximum_bytes: MAX_WEBDRIVER_BIDI_SESSION_STATUS_MESSAGE_SIZE },
        WebDriverBiDiSessionStatusResponseError::InvalidResultProjection,
        WebDriverBiDiSessionStatusResponseError::RemoteProtocolError { command_id: 7 },
    ];
    for error in leaf_errors {
        assert!(error.source().is_none());
        assert!(!error.to_string().is_empty());
    }
}

#[test]
fn webdriver_bidi_pointer_click_response_response_errors_have_stable_messages_and_typed_sources() {
    let envelope = WebDriverBiDiPointerClickResponseError::Envelope { source: WebDriverBiDiJsonEnvelopeError::InvalidJson };
    assert_eq!(envelope.to_string(), "WebDriver BiDi pointer-click envelope is invalid");
    assert!(envelope.source().is_some());

    let correlation = WebDriverBiDiPointerClickResponseError::Correlation {
        source: WebDriverBiDiCommandCorrelationError::CommandNotOutstanding,
    };
    assert_eq!(correlation.to_string(), "WebDriver BiDi pointer-click response correlation failed");
    assert!(correlation.source().is_some());

    let remote = WebDriverBiDiPointerClickResponseError::RemoteProtocolError { command_id: 42 };
    assert_eq!(remote.to_string(), "WebDriver BiDi pointer-click returned a protocol error");
    assert!(remote.source().is_none());
}

#[test]
fn webdriver_bidi_session_end_response_response_errors_have_stable_messages_and_typed_sources() {
    let envelope = WebDriverBiDiSessionEndResponseError::Envelope { source: WebDriverBiDiJsonEnvelopeError::InvalidJson };
    assert_eq!(envelope.to_string(), "WebDriver BiDi session.end envelope is invalid");
    assert!(envelope.source().is_some());

    let correlation = WebDriverBiDiSessionEndResponseError::Correlation {
        source: WebDriverBiDiCommandCorrelationError::CommandNotOutstanding,
    };
    assert_eq!(correlation.to_string(), "WebDriver BiDi session.end response correlation failed");
    assert!(correlation.source().is_some());

    let missing = WebDriverBiDiSessionEndResponseError::MissingConnectionProvenance { command_id: 7 };
    assert_eq!(missing.to_string(), "WebDriver BiDi session.end response lacks connection provenance");
    assert!(missing.source().is_none());

    let mismatch = WebDriverBiDiSessionEndResponseError::TransportConnectionMismatch { command_id: 7 };
    assert_eq!(mismatch.to_string(), "WebDriver BiDi session.end response arrived on a different connection");
    assert!(mismatch.source().is_none());

    let remote = WebDriverBiDiSessionEndResponseError::RemoteProtocolError { command_id: 7 };
    assert_eq!(remote.to_string(), "WebDriver BiDi session.end returned a protocol error");
    assert!(remote.source().is_none());
}

#[test]
fn projection_accepts_extensible_navigation_info_and_null_navigation() {
    let projected = NavigationCommittedProjection::parse(
        r#"{"type":"event","method":"browsingContext.navigationCommitted","meta":[null,true,false,-2.5e+3,{"nested":"value"}],"params":{"url":"https://example.test/\u0061fter","timestamp":42,"navigation":"nav-\ud83d\ude80","context":"context-a","vendor":{"ignored":true}}}"#,
    );
    assert!(projected.is_ok());
    let projected = projected.ok();
    assert_eq!(projected.as_ref().map(|value| value.context.as_str()), Some("context-a"));
    assert_eq!(projected.as_ref().and_then(|value| value.navigation_id.as_deref()), Some("nav-🚀"));
    assert_eq!(projected.as_ref().map(|value| value.timestamp), Some(42));
    assert_eq!(projected.as_ref().map(|value| value.url.as_str()), Some("https://example.test/after"));

    let projected = NavigationCommittedProjection::parse(
        r#"{"params":{"context":"context-a","navigation":null,"timestamp":0,"url":"about:blank"}}"#,
    );
    assert!(projected.is_ok());
    assert_eq!(projected.ok().and_then(|value| value.navigation_id), None);
}

#[test]
fn projection_error_display_is_specific_and_source_free() {
    let errors = [
        WebDriverBiDiNavigationCommittedProjectionError::InvalidStructure,
        WebDriverBiDiNavigationCommittedProjectionError::MissingRequiredMember { member: "url" },
        WebDriverBiDiNavigationCommittedProjectionError::DuplicateRequiredMember { member: "url" },
        WebDriverBiDiNavigationCommittedProjectionError::InvalidContextIdentifier,
        WebDriverBiDiNavigationCommittedProjectionError::InvalidNavigationIdentifier,
        WebDriverBiDiNavigationCommittedProjectionError::InvalidTimestamp,
        WebDriverBiDiNavigationCommittedProjectionError::UrlTooLarge { maximum_bytes: MAX_WEBDRIVER_BIDI_NAVIGATION_URL_BYTES },
    ];
    for error in errors {
        assert!(!error.to_string().is_empty());
        assert!(error.source().is_none());
    }
}

#[test]
fn projection_rejects_duplicate_and_malformed_navigation_fields() {
    let cases = [
        "{}",
        r#"{"params":{}}"#,
        r#"{"params":{"context":"a","context":"b","navigation":null,"timestamp":1,"url":"x"}}"#,
        r#"{"params":{"context":"bad context","navigation":null,"timestamp":1,"url":"x"}}"#,
        r#"{"params":{"context":"a","navigation":"bad nav","timestamp":1,"url":"x"}}"#,
        r#"{"params":{"context":"a","navigation":null,"timestamp":-1,"url":"x"}}"#,
        r#"{"params":{"context":"a","navigation":null,"timestamp":1.5,"url":"x"}}"#,
        r#"{"params":{"context":"a","navigation":null,"timestamp":1,"url":"x"}}?"#,
    ];
    for document in cases {
        assert!(NavigationCommittedProjection::parse(document).is_err(), "{document}");
    }
}

#[test]
fn session_status_response_consumes_only_a_status_command() {
    let mut correlation = WebDriverBiDiCommandCorrelation::new();
    correlation.register_command(7).expect("registered");
    let empty = message(r#"{"type":"success","id":7,"result":{}}"#);
    let refused = WebDriverBiDiSessionStatusResult::parse_and_correlate(&empty, &mut correlation);
    assert!(matches!(refused, Err(WebDriverBiDiSessionStatusResponseError::MissingReady)));
    assert_eq!(correlation.outstanding_count(), 1);

    let ready = message(r#"{"type":"success","id":7,"result":{"ready":true,"message":"ok"}}"#);
    let status = WebDriverBiDiSessionStatusResult::parse_and_correlate(&ready, &mut correlation).expect("admitted");
    assert_eq!(status.command_id(), 7);
    assert!(status.ready());
    assert_eq!(status.message(), "ok");
    assert_eq!(correlation.outstanding_count(), 0);
}

#[test]
fn pointer_click_response_needs_a_pointer_click_command() {
    let mut correlation = WebDriverBiDiCommandCorrelation::new();
    correlation.register_command_for(4, WebDriverBiDiCommandKind::SessionStatus).expect("registered");
    let response = message(r#"{"type":"success","id":4,"result":{}}"#);
    let refused = WebDriverBiDiPointerClickResult::parse_and_correlate(&response, &mut correlation);
    assert_eq!(
        refused.err(),
        Some(WebDriverBiDiPointerClickResponseError::Correlation {
            source: WebDriverBiDiCommandCorrelationError::CommandKindMismatch
        })
    );
    assert!(correlation.is_outstanding(4));
    assert_eq!(correlation.retire_command(4), Ok(()));
    correlation.register_command_for(4, WebDriverBiDiCommandKind::PointerClick).expect("registered");
    let clicked = WebDriverBiDiPointerClickResult::parse_and_correlate(&response, &mut correlation).expect("acknowledged");
    assert_eq!(clicked.command_id(), 4);
}

#[test]
fn session_end_response_must_arrive_on_the_command_connection() {
    let mut correlation = WebDriverBiDiCommandCorrelation::new();
    let mut generations = WebDriverBiDiConnectionGenerationCounter::new();
    let first = generations.allocate().expect("generation available");
    let second = generations.allocate().expect("generation available");
    assert_eq!((first.value(), second.value()), (1, 2));
    correlation.register_command_for_connection(9, WebDriverBiDiCommandKind::SessionEnd, first).expect("registered");
    let text = r#"{"type":"success","id":9,"result":{}}"#;
    let elsewhere = WebDriverBiDiConnectionInbox::new(second).receive(message(text));
    let refused = WebDriverBiDiSessionEndResult::parse_and_correlate(&elsewhere, &mut correlation);
    assert!(matches!(refused, Err(WebDriverBiDiSessionEndResponseError::TransportConnectionMismatch { command_id: 9 })));
    assert!(correlation.is_outstanding(9));

    let here = WebDriverBiDiConnectionInbox::new(first).receive(message(text));
    let ended = WebDriverBiDiSessionEndResult::parse_and_correlate(&here, &mut correlation).expect("acknowledged");
    assert_eq!(ended.command_id(), 9);
    assert_eq!(ended.connection_generation(), first);
    assert_eq!(correlation.outstanding_count(), 0);
}

#[test]
fn public_session_status_empty_result_fails_closed_from_unit_build() {
    let mut correlation = WebDriverBiDiCommandCorrelation::new();
    correlation.register_command_for(7, WebDriverBiDiCommandKind::SessionStatus).expect("registered");
    let parsed = WebDriverBiDiSessionStatusResult::parse_and_correlate(
        &message(r#"{"type":"success","id":7,"result":{}}"#),
        &mut correlation,
    );
    assert!(matches!(parsed, Err(WebDriverBiDiSessionStatusResponseError::MissingReady)));
    assert_eq!(correlation.outstanding_count(), 1);
}

#[test]
fn projection_rejects_missing_duplicate_invalid_and_oversized_required_fields() {
    let oversized_url = "x".repeat(MAX_WEBDRIVER_BIDI_NAVIGATION_URL_BYTES + 1);
    let oversized_navigation = "n".repeat(MAX_WEBDRIVER_BIDI_NAVIGATION_IDENTIFIER_BYTES + 1);
    let oversized_context = "c".repeat(MAX_EXTERNAL_BROWSER_IDENTIFIER_BYTES + 1);
    let cases = [
        "{}".to_owned(),
        r#"{"params":{}}"#.to_owned(),
        r#"{"params":{"navigation":null,"timestamp":1,"url":"x"}}"#.to_owned(),
        r#"{"params":{"context":"context-a","timestamp":1,"url":"x"}}"#.to_owned(),
        r#"{"params":{"context":"context-a","navigation":null,"url":"x"}}"#.to_owned(),
        r#"{"params":{"context":"context-a","navigation":null,"timestamp":1}}"#.to_owned(),
        r#"{"params":{},"params":{}}"#.to_owned(),
        r#"{"params":{"context":"a","navigation":null,"timestamp":1,"url":"x"},"params":{"context":"b","navigation":null,"timestamp":2,"url":"y"}}"#.to_owned(),
        r#"{"params":{"context":"a","context":"b","navigation":null,"timestamp":1,"url":"x"}}"#.to_owned(),
        r#"{"params":{"context":"a","navigation":null,"navigation":"b","timestamp":1,"url":"x"}}"#.to_owned(),
        r#"{"params":{"context":"a","navigation":null,"timestamp":1,"timestamp":2,"url":"x"}}"#.to_owned(),
        r#"{"params":{"context":"a","navigation":null,"timestamp":1,"url":"x","url":"y"}}"#.to_owned(),
        r#"{"params":{"context":"bad context","navigation":null,"timestamp":1,"url":"x"}}"#.to_owned(),
        r#"{"params":{"context":"a","navigation":"bad nav","timestamp":1,"url":"x"}}"#.to_owned(),
        r#"{"params":{"context":"a","navigation":false,"timestamp":1,"url":"x"}}"#.to_owned(),
        r#"{"params":{"context":"a","navigation":null,"timestamp":-1,"url":"x"}}"#.to_owned(),
        r#"{"params":{"context":"a","navigation":null,"timestamp":1.5,"url":"x"}}"#.to_owned(),
        r#"{"params":{"context":"a","navigation":null,"timestamp":1,"url":"x"}}?"#.to_owned(),
        r#"{"params":{"context":"a","vendor":?,"navigation":null,"timestamp":1,"url":"x"}}"#.to_owned(),
        format!(
            "{{\"params\":{{\"context\":\"a\",\"navigation\":null,\"timestamp\":{},\"url\":\"x\"}}}}",
            MAX_WEBDRIVER_BIDI_JS_UINT + 1
        ),
        format!("{{\"params\":{{\"context\":\"{}\",\"navigation\":null,\"timestamp\":1,\"url\":\"x\"}}}}", oversized_context),
        format!("{{\"params\":{{\"context\":\"a\",\"navigation\":\"{}\",\"timestamp\":1,\"url\":\"x\"}}}}", oversized_navigation),
        format!("{{\"params\":{{\"context\":\"a\",\"navigation\":null,\"timestamp\":1,\"url\":\"{}\"}}}}", oversized_url),
    ];
    for document in cases {
        assert!(NavigationCommittedProjection::parse(&document).is_err());
    }
}

#[test]
fn projection_cursor_defensive_helpers_cover_private_hostile_edges() {
    for document in [
        "",
        "[]",
        r#"{"x" 1}"#,
        r#"{"x":?}"#,
        r#"{"x":1 ?}"#,
        r#"{"params":[]}"#,
        r#"{"params":{?}}"#,
        r#"{"params":{"context" "a"}}"#,
        r#"{"params":{"context":"a" ?}}"#,
        r#"{"params":{"context":"\uD800","navigation":null,"timestamp":1,"url":"x"}}"#,
        r#"{"params":{"context":"\q","navigation":null,"timestamp":1,"url":"x"}}"#,
        r#"{"params":{"context":"a","navigation":null,"timestamp":?,"url":"x"}}"#,
    ] {
        assert!(NavigationCommittedProjection::parse(document).is_err());
    }

    let mut object = ProjectionCursor::new("[]");
    assert!(!object.skip_object());
    let mut object = ProjectionCursor::new("{}");
    assert!(object.skip_object());
    let mut object = ProjectionCursor::new("{?}");
    assert!(!object.skip_object());
    let mut object = ProjectionCursor::new(r#"{"x" 1}"#);
    assert!(!object.skip_object());
    let mut object = ProjectionCursor::new(r#"{"x":?}"#);
    assert!(!object.skip_object());
    let mut object = ProjectionCursor::new(r#"{"x":1 ?}"#);
    assert!(!object.skip_object());
    let mut object = ProjectionCursor::new(r#"{"x":1,"y":2}"#);
    assert!(object.skip_object());

    let mut array = ProjectionCursor::new("{}");
    assert!(!array.skip_array());
    let mut array = ProjectionCursor::new("[]");
    assert!(array.skip_array());
    let mut array = ProjectionCursor::new("[?]");
    assert!(!array.skip_array());
    let mut array = ProjectionCursor::new("[1 ?]");
    assert!(!array.skip_array());

    for document in [r#""x""#, "{}", "[]", "true", "false", "null", "-2.5e+3"] {
        let mut value = ProjectionCursor::new(document);
        assert!(value.skip_value(), "{document}");
    }
    let mut value = ProjectionCursor::new("?");
    assert!(!value.skip_value());
    let mut number = ProjectionCursor::new("x");
    assert!(!number.skip_number());
    let mut number = ProjectionCursor::new("+1");
    assert!(number.skip_number());

    for invalid in [
        "\"abc\\",
        r#""\uD800""#,
        r#""\uDC00""#,
        r#""\uD800\x""#,
        r#""\uD800\uZZZZ""#,
        r#""\uD800\u0041""#,
        r#""\uZZZZ""#,
        r#""\q""#,
    ] {
        let mut string = ProjectionCursor::new(invalid);
        assert!(string.parse_string().is_none());
    }

    assert!(!protocol_identifier_is_valid("", MAX_EXTERNAL_BROWSER_IDENTIFIER_BYTES));
    assert!(!protocol_identifier_is_valid("\u{0000}", MAX_EXTERNAL_BROWSER_IDENTIFIER_BYTES));
}
