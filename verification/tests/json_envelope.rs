use originweave_network::json_envelope::{
    WebDriverBiDiJsonEnvelope, WebDriverBiDiJsonEnvelopeError, WebDriverBiDiJsonEnvelopeKind,
    WebDriverBiDiJsonEnvelopeRouting, MAX_WEBDRIVER_BIDI_JSON_DEPTH, MAX_WEBDRIVER_BIDI_JS_UINT,
};
use originweave_network::text_message::WebDriverBiDiWebSocketTextMessage;

const WEBDRIVER_BIDI_ERROR_CODES: [&str; 30] = [
    "invalid argument",
    "invalid selector",
    "invalid session id",
    "invalid web extension",
    "move target out of bounds",
    "no such alert",
    "no such network collector",
    "no such element",
    "no such frame",
    "no such handle",
    "no such history entry",
    "no such intercept",
    "no such network data",
    "no such node",
    "no such request",
    "no such screencast",
    "no such script",
    "no such storage partition",
    "no such user context",
    "no such web extension",
    "session not created",
    "unable to capture screen",
    "unable to close browser",
    "unable to set cookie",
    "unable to set file input",
    "unavailable network data",
    "underspecified storage partition",
    "unknown command",
    "unknown error",
    "unsupported operation",
];

const SUCCESS_MESSAGE: &[u8] =
    br#"{"type":"success","id":7,"result":{"ready":true,"slash":"\/","upper":"\uABCD"}}"#;

fn parse(value: &str) -> Result<WebDriverBiDiJsonEnvelope, WebDriverBiDiJsonEnvelopeError> {
    WebDriverBiDiJsonEnvelope::parse_str(value)
}

fn parse_message(document: &[u8]) -> Result<WebDriverBiDiJsonEnvelope, WebDriverBiDiJsonEnvelopeError> {
    let text = std::str::from_utf8(document).expect("test documents are UTF-8");
    let message = WebDriverBiDiWebSocketTextMessage::new(text).expect("test documents are bounded");
    WebDriverBiDiJsonEnvelope::parse(&message)
}

#[test]
fn classifies_all_local_end_envelope_kinds_and_redacts_debug() {
    let success = parse(
        r#"{"type":"success","id":9007199254740991,"result":{"ready":true},"ext":[null,false,1.5,-2e3,"\u20ac","\ud83d\ude00"]}"#,
    );
    assert_eq!(
        success.as_ref().map(WebDriverBiDiJsonEnvelope::kind),
        Ok(WebDriverBiDiJsonEnvelopeKind::Success)
    );
    assert_eq!(
        success.as_ref().map(WebDriverBiDiJsonEnvelope::command_id),
        Ok(Some(MAX_WEBDRIVER_BIDI_JS_UINT))
    );
    assert_eq!(success.as_ref().map(WebDriverBiDiJsonEnvelope::method), Ok(None));
    assert_eq!(success.as_ref().map(WebDriverBiDiJsonEnvelope::error_code), Ok(None));
    let debug = format!("{success:?}");
    assert!(debug.contains("Success"));
    assert!(!debug.contains("ready"));

    let error = parse(
        r#"{"type":"error","id":null,"error":"invalid argument","message":"secret detail","stacktrace":"hidden","vendor":{"x":[]}}"#,
    );
    assert_eq!(
        error.as_ref().map(WebDriverBiDiJsonEnvelope::kind),
        Ok(WebDriverBiDiJsonEnvelopeKind::Error)
    );
    assert_eq!(error.as_ref().map(WebDriverBiDiJsonEnvelope::command_id), Ok(None));
    assert_eq!(
        error.as_ref().map(WebDriverBiDiJsonEnvelope::error_code),
        Ok(Some("invalid argument"))
    );
    assert_eq!(error.as_ref().map(WebDriverBiDiJsonEnvelope::method), Ok(None));
    let debug = format!("{error:?}");
    assert!(!debug.contains("invalid argument"));
    assert!(!debug.contains("secret detail"));

    let event = parse(r#"{"type":"event","method":"browsingContext.load","params":{},"vendor":true}"#);
    assert_eq!(
        event.as_ref().map(WebDriverBiDiJsonEnvelope::kind),
        Ok(WebDriverBiDiJsonEnvelopeKind::Event)
    );
    assert_eq!(event.as_ref().map(WebDriverBiDiJsonEnvelope::command_id), Ok(None));
    assert_eq!(
        event.as_ref().map(WebDriverBiDiJsonEnvelope::method),
        Ok(Some("browsingContext.load"))
    );
    assert_eq!(event.as_ref().map(WebDriverBiDiJsonEnvelope::error_code), Ok(None));
}

#[test]
fn accepts_current_protocol_error_code_vocabulary() {
    for error_code in WEBDRIVER_BIDI_ERROR_CODES {
        let document = format!(r#"{{"type":"error","id":7,"error":"{error_code}","message":""}}"#);
        assert_eq!(
            parse(&document).as_ref().ok().and_then(WebDriverBiDiJsonEnvelope::error_code),
            Some(error_code)
        );
    }
    assert_eq!(
        parse(r#"{"type":"error","id":7,"error":"attacker-defined-code","message":"bad code"}"#),
        Err(WebDriverBiDiJsonEnvelopeError::InvalidMember { member: "error" })
    );
}

#[test]
fn accepts_correlatable_error_and_extensible_success_members() {
    let error = parse(r#"{"type":"error","id":7,"error":"unknown error","message":"","x":0}"#);
    assert_eq!(error.as_ref().ok().and_then(WebDriverBiDiJsonEnvelope::command_id), Some(7));

    let success = parse(
        "{\n \"\\u0074ype\":\"success\", \"id\":0, \"result\":{\"escaped\":\"\\\\/\\b\\f\\n\\r\\t\\\"\",\"unicode\":\"é\"}, \"method\":123 } \r\n",
    );
    assert!(success.is_ok());
}

#[test]
fn envelope_shape_failures_are_typed() {
    let cases = [
        ("{}", WebDriverBiDiJsonEnvelopeError::MissingRequiredMember { member: "type" }),
        (r#"{"type":1}"#, WebDriverBiDiJsonEnvelopeError::InvalidMember { member: "type" }),
        (r#"{"type":"other"}"#, WebDriverBiDiJsonEnvelopeError::UnsupportedEnvelopeType),
        (
            r#"{"type":"success","result":{}}"#,
            WebDriverBiDiJsonEnvelopeError::MissingRequiredMember { member: "id" },
        ),
        (
            r#"{"type":"success","id":null,"result":{}}"#,
            WebDriverBiDiJsonEnvelopeError::InvalidMember { member: "id" },
        ),
        (
            r#"{"type":"success","id":9007199254740992,"result":{}}"#,
            WebDriverBiDiJsonEnvelopeError::InvalidMember { member: "id" },
        ),
        (
            r#"{"type":"success","id":1}"#,
            WebDriverBiDiJsonEnvelopeError::MissingRequiredMember { member: "result" },
        ),
        (
            r#"{"type":"success","id":1,"result":[]}"#,
            WebDriverBiDiJsonEnvelopeError::InvalidMember { member: "result" },
        ),
        (
            r#"{"type":"error","error":"x","message":"m"}"#,
            WebDriverBiDiJsonEnvelopeError::MissingRequiredMember { member: "id" },
        ),
        (
            r#"{"type":"error","id":-1,"error":"x","message":"m"}"#,
            WebDriverBiDiJsonEnvelopeError::InvalidMember { member: "id" },
        ),
        (
            r#"{"type":"error","id":null,"message":"m"}"#,
            WebDriverBiDiJsonEnvelopeError::MissingRequiredMember { member: "error" },
        ),
        (
            r#"{"type":"error","id":null,"error":false,"message":"m"}"#,
            WebDriverBiDiJsonEnvelopeError::InvalidMember { member: "error" },
        ),
        (
            r#"{"type":"error","id":null,"error":"x"}"#,
            WebDriverBiDiJsonEnvelopeError::MissingRequiredMember { member: "message" },
        ),
        (
            r#"{"type":"error","id":null,"error":"x","message":{}}"#,
            WebDriverBiDiJsonEnvelopeError::InvalidMember { member: "message" },
        ),
        (
            r#"{"type":"error","id":null,"error":"x","message":"m","stacktrace":0}"#,
            WebDriverBiDiJsonEnvelopeError::InvalidMember { member: "stacktrace" },
        ),
        (
            r#"{"type":"event","params":{}}"#,
            WebDriverBiDiJsonEnvelopeError::MissingRequiredMember { member: "method" },
        ),
        (
            r#"{"type":"event","method":false,"params":{}}"#,
            WebDriverBiDiJsonEnvelopeError::InvalidMember { member: "method" },
        ),
        (
            r#"{"type":"event","method":"x"}"#,
            WebDriverBiDiJsonEnvelopeError::MissingRequiredMember { member: "params" },
        ),
        (
            r#"{"type":"event","method":"x","params":null}"#,
            WebDriverBiDiJsonEnvelopeError::InvalidMember { member: "params" },
        ),
    ];
    for (document, expected) in cases {
        assert_eq!(parse(document), Err(expected));
    }
}

#[test]
fn rejects_ambiguous_or_malformed_json() {
    let cases = [
        "[]",
        "null",
        r#"{"type":"success","type":"event","id":1,"result":{}}"#,
        r#"{"type":"success","id":1,"result":{}} trailing"#,
        r#"{"type":"success","id":01,"result":{}}"#,
        r#"{"type":"success","id":1.,"result":{}}"#,
        r#"{"type":"success","id":1e,"result":{}}"#,
        r#"{"type":"success","id":1e+,"result":{}}"#,
        r#"{"type":"success","id":-,"result":{}}"#,
        r#"{"type":"success","id":18446744073709551616,"result":{}}"#,
        "{\"type\":\"success\",\"id\":1,\"result\":{\"bad\":\"line\nbreak\"}}",
        r#"{"type":"success","id":1,"result":{"bad":"\x"}}"#,
        r#"{"type":"success","id":1,"result":{"bad":"\u12xz"}}"#,
        r#"{"type":"success","id":1,"result":{"bad":"\ud800x"}}"#,
        r#"{"type":"success","id":1,"result":{"bad":"\ud800\u0041"}}"#,
        r#"{"type":"success","id":1,"result":{"bad":"\udc00"}}"#,
        r#"{"type":"success","id":1,"result":{"a":true "b":false}}"#,
        r#"{"type":"success","id":1,"result":[1,]}"#,
        r#"{"type":"success","id":1,"result":{"a":tru}}"#,
        r#"{"type":"success","id":1,"result":{"a":fal}}"#,
        r#"{"type":"success","id":1,"result":{"a":nul}}"#,
        r#"{"type":"success","id":1,"result":{"a":}}"#,
        r#"{"type":"success","id":1,"result":{"#,
    ];
    for document in cases {
        assert!(parse(document).is_err(), "unexpectedly admitted {document}");
    }
    assert_eq!(parse("[]"), Err(WebDriverBiDiJsonEnvelopeError::RootMustBeObject));
    assert_eq!(
        parse(r#"{"type":"success","type":"event","id":1,"result":{}}"#),
        Err(WebDriverBiDiJsonEnvelopeError::DuplicateTopLevelMember)
    );
}

#[test]
fn rejects_excessive_json_nesting_and_formats_errors_without_payloads() {
    let mut document = String::from(r#"{"type":"success","id":1,"result":"#);
    for _ in 0..=MAX_WEBDRIVER_BIDI_JSON_DEPTH {
        document.push('[');
    }
    document.push_str("null");
    for _ in 0..=MAX_WEBDRIVER_BIDI_JSON_DEPTH {
        document.push(']');
    }
    document.push('}');
    assert_eq!(
        parse(&document),
        Err(WebDriverBiDiJsonEnvelopeError::NestingTooDeep { maximum_depth: MAX_WEBDRIVER_BIDI_JSON_DEPTH })
    );

    let errors = [
        WebDriverBiDiJsonEnvelopeError::InvalidJson,
        WebDriverBiDiJsonEnvelopeError::RootMustBeObject,
        WebDriverBiDiJsonEnvelopeError::DuplicateTopLevelMember,
        WebDriverBiDiJsonEnvelopeError::NestingTooDeep { maximum_depth: MAX_WEBDRIVER_BIDI_JSON_DEPTH },
        WebDriverBiDiJsonEnvelopeError::MissingRequiredMember { member: "id" },
        WebDriverBiDiJsonEnvelopeError::InvalidMember { member: "result" },
        WebDriverBiDiJsonEnvelopeError::UnsupportedEnvelopeType,
    ];
    for error in errors {
        let display = error.to_string();
        assert!(!display.is_empty());
        assert!(error.source().is_none());
    }
}

#[test]
fn public_json_envelope_boundary_is_exercised_from_unit_build() {
    let parsed = parse_message(SUCCESS_MESSAGE);
    assert_eq!(
        parsed.as_ref().map(WebDriverBiDiJsonEnvelope::kind),
        Ok(WebDriverBiDiJsonEnvelopeKind::Success)
    );
    assert_eq!(parsed.as_ref().map(WebDriverBiDiJsonEnvelope::command_id), Ok(Some(7)));
}

#[test]
fn public_json_envelope_unit_build_covers_fail_closed_json_edges() {
    let malformed_documents: [&'static [u8]; 8] = [
        br#"{"unterminated"#,
        br#"{"type" "success"}"#,
        br#"{"type":"success" "id":1}"#,
        br#"{"type":"success","id":1,"result":{"a" 1}}"#,
        br#"{"type":"success","id":1,"result":[1 2]}"#,
        br##"{"type":"success","id":1,"result":{"bad":"\"##,
        br#"{"type":"success","id":1,"result":{"bad":"\ud800\0041"}}"#,
        br##"{"type":"success","id":1,"result":{"bad":"\ud800\u"##,
    ];
    for document in malformed_documents {
        assert_eq!(parse_message(document), Err(WebDriverBiDiJsonEnvelopeError::InvalidJson));
    }
}

#[test]
fn routing_names_the_correlatable_command_or_the_event() {
    let success = parse(r#"{"type":"success","id":12,"result":{}}"#).expect("success");
    assert_eq!(success.routing(), WebDriverBiDiJsonEnvelopeRouting::CommandSuccess { command_id: 12 });
    let event = parse(r#"{"type":"event","method":"a.b","params":{}}"#).expect("event");
    assert_eq!(event.routing(), WebDriverBiDiJsonEnvelopeRouting::Event);
}

#[test]
fn error_messages_name_the_member_and_the_depth() {
    assert_eq!(
        WebDriverBiDiJsonEnvelopeError::InvalidMember { member: "result" }.to_string(),
        "WebDriver BiDi envelope member result is invalid"
    );
    assert_eq!(
        WebDriverBiDiJsonEnvelopeError::NestingTooDeep { maximum_depth: 64 }.to_string(),
        "WebDriver BiDi JSON nesting exceeds maximum depth 64"
    );
}

#[test]
fn serialized_command_ids_read_back_as_the_same_id() {
    for id in [0_u64, 7, 42, 1_000, MAX_WEBDRIVER_BIDI_JS_UINT] {
        let digits = originweave_network::json_text::decimal_text(id);
        let document = format!(r#"{{"type":"success","id":{digits},"result":{{}}}}"#);
        assert_eq!(parse(&document).ok().and_then(|e| e.command_id()), Some(id));
    }
}
