use originweave_network::command_correlation::WebDriverBiDiCommandCorrelationError;
use originweave_network::json_envelope::WebDriverBiDiJsonEnvelopeError;
use originweave_network::script_result_projection::{
    decode_json_string, parse_object_members, project_script_result, scan_container_end, scan_string_end,
    scan_value_end, ScriptResultProjection, WebDriverBiDiTextValueObservationProjectionError,
    MAX_SCRIPT_RESULT_MEMBER_NAME_BYTES, MAX_SCRIPT_RESULT_NESTING_DEPTH, MAX_SCRIPT_RESULT_OBJECT_MEMBERS,
};
use originweave_network::text_policy::MAX_WEBDRIVER_BIDI_TYPE_TEXT_BYTES;
use originweave_network::text_value_observation_response::{
    validate_expected_text, WebDriverBiDiTextValueObservationResponseError,
};
use originweave_network::command_correlation::{WebDriverBiDiCommandCorrelation, WebDriverBiDiCommandKind};
use originweave_network::text_message::WebDriverBiDiWebSocketTextMessage;
use originweave_network::text_value_observation_response::WebDriverBiDiTextValueObservationResult;

#[test]
fn projection_helpers_reject_invalid_strings_values_and_resource_exhaustion() {
    let invalid = Some(WebDriverBiDiTextValueObservationProjectionError::InvalidString);
    assert_eq!(decode_json_string("not-a-string").err(), invalid);
    assert_eq!(decode_json_string(r#""\uDC00""#).err(), invalid);
    assert_eq!(decode_json_string(r#""\uD800x""#).err(), invalid);
    assert_eq!(decode_json_string(r#""\uD800\x""#).err(), invalid);
    assert_eq!(decode_json_string(r#""\uD800\u12xz""#).err(), invalid);
    assert_eq!(decode_json_string(r#""\uD800\u0041""#).err(), invalid);
    assert_eq!(decode_json_string(r#""\q""#).err(), invalid);
    assert_eq!(decode_json_string(r#""\u12xz""#).err(), invalid);

    assert_eq!(
        parse_object_members("[]", "root").err(),
        Some(WebDriverBiDiTextValueObservationProjectionError::InvalidObject { member: "root" })
    );
    assert_eq!(
        parse_object_members("{\"a\":1} trailing", "root").err(),
        Some(WebDriverBiDiTextValueObservationProjectionError::InvalidValue)
    );
    assert_eq!(
        scan_value_end(b"", 0, 0).err(),
        Some(WebDriverBiDiTextValueObservationProjectionError::InvalidValue)
    );
    assert_eq!(
        scan_value_end(b"x", 0, MAX_SCRIPT_RESULT_NESTING_DEPTH).err(),
        Some(WebDriverBiDiTextValueObservationProjectionError::NestingTooDeep)
    );
    assert_eq!(
        scan_container_end(b"[]", 0, b'{', b'}', 1).err(),
        Some(WebDriverBiDiTextValueObservationProjectionError::InvalidValue)
    );
    assert_eq!(scan_string_end(b"x", 0).err(), invalid);
}

#[test]
fn expected_text_validation_covers_budget_and_injection_policy() {
    assert_eq!(
        validate_expected_text("").err().map(|error| error.to_string()).as_deref(),
        Some("expected text-value postcondition must not be empty")
    );
    let oversized = "x".repeat(MAX_WEBDRIVER_BIDI_TYPE_TEXT_BYTES + 1);
    assert_eq!(
        validate_expected_text(&oversized).err().map(|error| error.to_string()).as_deref(),
        Some("expected text-value postcondition exceeds the local byte budget")
    );
    assert!(validate_expected_text("ordinary space").is_ok());
    for rejected in ["tab\tvalue", "control\u{0001}", "bidi\u{202e}override"] {
        assert_eq!(
            validate_expected_text(rejected).err().map(|error| error.to_string()).as_deref(),
            Some("expected text-value postcondition contains a disallowed character")
        );
    }
}

#[test]
fn projection_helpers_cover_structural_and_terminal_failures() {
    let missing_exception_details = r#"{"type":"success","id":15,"result":{"type":"exception","realm":"realm-1"}}"#;
    assert_eq!(
        project_script_result(missing_exception_details).err(),
        Some(WebDriverBiDiTextValueObservationProjectionError::MissingMember { member: "result.exceptionDetails" })
    );
    let invalid_exception_details =
        r#"{"type":"success","id":16,"result":{"type":"exception","realm":"realm-1","exceptionDetails":false}}"#;
    assert_eq!(
        project_script_result(invalid_exception_details).err(),
        Some(WebDriverBiDiTextValueObservationProjectionError::InvalidObject { member: "result.exceptionDetails" })
    );

    let many_members = (0..=MAX_SCRIPT_RESULT_OBJECT_MEMBERS)
        .map(|index| format!("\"k{index}\":0"))
        .collect::<Vec<_>>()
        .join(",");
    let too_many = format!("{{{many_members}}}");
    assert_eq!(
        parse_object_members(&too_many, "root").err(),
        Some(WebDriverBiDiTextValueObservationProjectionError::TooManyMembers)
    );

    let long_name = "k".repeat(MAX_SCRIPT_RESULT_MEMBER_NAME_BYTES + 1);
    let long_member = format!("{{\"{long_name}\":0}}");
    assert_eq!(
        parse_object_members(&long_member, "root").err(),
        Some(WebDriverBiDiTextValueObservationProjectionError::MemberNameTooLong)
    );
    assert_eq!(
        parse_object_members(r#"{"a" 1}"#, "root").err(),
        Some(WebDriverBiDiTextValueObservationProjectionError::InvalidValue)
    );
    assert_eq!(
        parse_object_members(r#"{"a":1]"#, "root").err(),
        Some(WebDriverBiDiTextValueObservationProjectionError::InvalidValue)
    );

    assert_eq!(scan_value_end(b"[]", 0, 0), Ok(2));
    assert_eq!(scan_value_end(b"terminal", 0, 0), Ok(b"terminal".len()));
    assert_eq!(
        scan_value_end(b",", 0, 0).err(),
        Some(WebDriverBiDiTextValueObservationProjectionError::InvalidValue)
    );
    assert_eq!(
        scan_container_end(b"{}", 0, b'{', b'}', MAX_SCRIPT_RESULT_NESTING_DEPTH + 1).err(),
        Some(WebDriverBiDiTextValueObservationProjectionError::NestingTooDeep)
    );

    let deep_objects = "{".repeat(MAX_SCRIPT_RESULT_NESTING_DEPTH + 1);
    assert_eq!(
        scan_container_end(deep_objects.as_bytes(), 0, b'{', b'}', 1).err(),
        Some(WebDriverBiDiTextValueObservationProjectionError::NestingTooDeep)
    );
    let deep_arrays = "[".repeat(MAX_SCRIPT_RESULT_NESTING_DEPTH + 1);
    assert_eq!(
        scan_container_end(deep_arrays.as_bytes(), 0, b'[', b']', 1).err(),
        Some(WebDriverBiDiTextValueObservationProjectionError::NestingTooDeep)
    );
    assert_eq!(
        scan_container_end(b"{]", 0, b'{', b'}', 1).err(),
        Some(WebDriverBiDiTextValueObservationProjectionError::InvalidValue)
    );
    assert_eq!(
        scan_container_end(b"{", 0, b'{', b'}', 1).err(),
        Some(WebDriverBiDiTextValueObservationProjectionError::InvalidValue)
    );

    let invalid = Some(WebDriverBiDiTextValueObservationProjectionError::InvalidString);
    assert_eq!(scan_string_end(b"\"\\", 0).err(), invalid);
    assert_eq!(scan_string_end(b"\"\x01\"", 0).err(), invalid);
    assert_eq!(scan_string_end(b"\"x", 0).err(), invalid);

    assert_eq!(decode_json_string("\"").err(), invalid);
    assert_eq!(decode_json_string("\"x").err(), invalid);
    let raw_control = format!("\"{}\"", '\u{0001}');
    assert_eq!(decode_json_string(&raw_control).err(), invalid);
    assert_eq!(decode_json_string(r#""\uD83D\uDE00""#).as_deref(), Ok("😀"));
    assert_eq!(decode_json_string(r#""\u20AC""#).as_deref(), Ok("€"));
    assert_eq!(decode_json_string(r#""\u12""#).err(), invalid);
}

#[test]
fn projection_propagates_malformed_nested_json_without_consuming_detail() {
    assert_eq!(
        project_script_result("[]").err(),
        Some(WebDriverBiDiTextValueObservationProjectionError::InvalidObject { member: "response" })
    );
    let invalid = Some(WebDriverBiDiTextValueObservationProjectionError::InvalidString);
    let invalid_result_type = r#"{"type":"success","id":17,"result":{"type":"\q","realm":"realm-1"}}"#;
    assert_eq!(project_script_result(invalid_result_type).err(), invalid);

    let malformed_remote =
        r#"{"type":"success","id":18,"result":{"type":"success","realm":"realm-1","result":{"type" 1}}}"#;
    assert_eq!(
        project_script_result(malformed_remote).err(),
        Some(WebDriverBiDiTextValueObservationProjectionError::InvalidValue)
    );

    let invalid_remote_type = r#"{"type":"success","id":19,"result":{"type":"success","realm":"realm-1","result":{"type":"\q","value":"x"}}}"#;
    assert_eq!(project_script_result(invalid_remote_type).err(), invalid);

    let invalid_remote_value = r#"{"type":"success","id":20,"result":{"type":"success","realm":"realm-1","result":{"type":"string","value":"\q"}}}"#;
    assert_eq!(project_script_result(invalid_remote_value).err(), invalid);

    assert_eq!(parse_object_members(r#"{"unterminated}"#, "root").err(), invalid);
    assert_eq!(parse_object_members(r#"{"\q":1}"#, "root").err(), invalid);
    assert_eq!(
        parse_object_members(r#"{"a":"#, "root").err(),
        Some(WebDriverBiDiTextValueObservationProjectionError::InvalidValue)
    );
    assert_eq!(scan_container_end(b"{\"unterminated", 0, b'{', b'}', 1).err(), invalid);

    let dangling_escape_json_string = format!("{}{}{}", '"', '\\', '"');
    assert_eq!(decode_json_string(&dangling_escape_json_string).err(), invalid);
}

#[test]
fn script_result_projection_reads_the_string_value() {
    let document = r#"{"type":"success","id":21,"result":{"type":"success","realm":"realm-1","result":{"type":"string","value":"hello \u00e9"}}}"#;
    assert_eq!(project_script_result(document), Ok(ScriptResultProjection::String("hello é".to_owned())));
}

#[test]
fn response_and_projection_errors_are_stable_and_non_sensitive() {
    let cases: Vec<WebDriverBiDiTextValueObservationResponseError> = vec![
        WebDriverBiDiTextValueObservationResponseError::EmptyExpectedText,
        WebDriverBiDiTextValueObservationResponseError::ExpectedTextTooLong,
        WebDriverBiDiTextValueObservationResponseError::InvalidExpectedText,
        WebDriverBiDiTextValueObservationResponseError::UnexpectedEvent,
        WebDriverBiDiTextValueObservationResponseError::RemoteProtocolError { command_id: 7 },
        WebDriverBiDiTextValueObservationResponseError::ScriptException { command_id: 8 },
    ];
    for error in cases {
        assert!(error.source().is_none());
        assert!(!error.to_string().is_empty());
    }

    let envelope = WebDriverBiDiTextValueObservationResponseError::Envelope {
        source: WebDriverBiDiJsonEnvelopeError::InvalidJson,
    };
    assert!(envelope.source().is_some());
    let projection = WebDriverBiDiTextValueObservationResponseError::Projection {
        source: WebDriverBiDiTextValueObservationProjectionError::InvalidValue,
    };
    assert!(projection.source().is_some());
    let correlation = WebDriverBiDiTextValueObservationResponseError::Correlation {
        source: WebDriverBiDiCommandCorrelationError::CommandNotOutstanding,
    };
    assert!(correlation.source().is_some());

    let projection_errors = [
        WebDriverBiDiTextValueObservationProjectionError::InvalidObject { member: "result" },
        WebDriverBiDiTextValueObservationProjectionError::MissingMember { member: "result" },
        WebDriverBiDiTextValueObservationProjectionError::DuplicateMember,
        WebDriverBiDiTextValueObservationProjectionError::TooManyMembers,
        WebDriverBiDiTextValueObservationProjectionError::MemberNameTooLong,
        WebDriverBiDiTextValueObservationProjectionError::InvalidString,
        WebDriverBiDiTextValueObservationProjectionError::UnsupportedScriptResultType,
        WebDriverBiDiTextValueObservationProjectionError::UnsupportedRemoteValueType,
        WebDriverBiDiTextValueObservationProjectionError::ObservedTextTooLong,
        WebDriverBiDiTextValueObservationProjectionError::NestingTooDeep,
        WebDriverBiDiTextValueObservationProjectionError::InvalidValue,
    ];
    for error in projection_errors {
        assert!(!error.to_string().is_empty());
    }
}

#[test]
fn projection_accepts_extensions_and_decodes_string_escapes() {
    let response = r#"{"type":"success","id":7,"vendor":true,"result":{"realm":"realm-1","type":"success","vendor":{"nested":[1,true,null]},"result":{"value":"A\"B\\C\/D\b\f\n\r\t\u20ac\ud83d\ude00","type":"string","vendor":0}}}"#;
    assert_eq!(
        project_script_result(response),
        Ok(ScriptResultProjection::String("A\"B\\C/D\u{0008}\u{000c}\n\r\t€😀".to_owned()))
    );
}

#[test]
fn projection_accepts_typed_script_exception_without_retaining_details() {
    let response = r#"{"type":"success","id":8,"result":{"type":"exception","realm":"realm-1","exceptionDetails":{"text":"page-secret","columnNumber":1,"lineNumber":1,"stackTrace":{"callFrames":[]}}}}"#;
    assert_eq!(project_script_result(response), Ok(ScriptResultProjection::Exception));
}

#[test]
fn projection_rejects_unsupported_and_oversized_remote_values() {
    let wrong_type = r#"{"type":"success","id":9,"result":{"type":"success","realm":"realm-1","result":{"type":"number","value":1}}}"#;
    assert_eq!(
        project_script_result(wrong_type).err(),
        Some(WebDriverBiDiTextValueObservationProjectionError::UnsupportedRemoteValueType)
    );

    let oversized = "x".repeat(MAX_WEBDRIVER_BIDI_TYPE_TEXT_BYTES + 1);
    let response = format!(
        "{{\"type\":\"success\",\"id\":10,\"result\":{{\"type\":\"success\",\"realm\":\"realm-1\",\"result\":{{\"type\":\"string\",\"value\":\"{oversized}\"}}}}}}"
    );
    assert_eq!(
        project_script_result(&response).err(),
        Some(WebDriverBiDiTextValueObservationProjectionError::ObservedTextTooLong)
    );
}

#[test]
fn projection_rejects_missing_duplicate_and_invalid_members() {
    let missing = r#"{"type":"success","id":11,"result":{"type":"success","realm":"realm-1"}}"#;
    assert_eq!(
        project_script_result(missing).err(),
        Some(WebDriverBiDiTextValueObservationProjectionError::MissingMember { member: "result.result" })
    );

    let duplicate = r#"{"type":"success","id":12,"result":{"type":"success","type":"success","realm":"realm-1","result":{"type":"string","value":"x"}}}"#;
    assert_eq!(
        project_script_result(duplicate).err(),
        Some(WebDriverBiDiTextValueObservationProjectionError::DuplicateMember)
    );

    let invalid_object = r#"{"type":"success","id":13,"result":false}"#;
    assert_eq!(
        project_script_result(invalid_object).err(),
        Some(WebDriverBiDiTextValueObservationProjectionError::InvalidObject { member: "result" })
    );

    let unsupported = r#"{"type":"success","id":14,"result":{"type":"future","realm":"realm-1"}}"#;
    assert_eq!(
        project_script_result(unsupported).err(),
        Some(WebDriverBiDiTextValueObservationProjectionError::UnsupportedScriptResultType)
    );
}

const ERROR_UNKNOWN_COMMAND: &str = r#"{"type":"error","id":71,"error":"unknown error","message":"remote failure"}"#;
const MALFORMED_PROJECTION: &str =
    r#"{"type":"success","id":70,"result":{"type":"success","result":{"type":"string","value":"expected"}}}"#;
const SUCCESS_UNKNOWN_COMMAND: &str = r#"{"type":"success","id":72,"result":{"type":"success","realm":"realm-1","result":{"type":"string","value":"expected"}}}"#;
const FINAL_EXPECTED_TEXT: &str = "Quarterly review";
const VALID_SUCCESS: &str = r#"{"type":"success","id":70,"result":{"type":"success","realm":"realm-1","result":{"type":"string","value":"Quarterly review"}}}"#;

#[test]
fn public_text_value_boundary_covers_error_adapters_and_credential_safe_result() {

    let message = |text: &str| WebDriverBiDiWebSocketTextMessage::new(text).expect("bounded");
    let mut correlation = WebDriverBiDiCommandCorrelation::new();
    correlation.register_command_for(70, WebDriverBiDiCommandKind::TextValueObservation).expect("registered");

    let envelope_result =
        WebDriverBiDiTextValueObservationResult::parse_correlate_and_compare(&message("not-json"), "expected", &mut correlation);
    assert!(matches!(&envelope_result, Err(WebDriverBiDiTextValueObservationResponseError::Envelope { .. })));
    assert_eq!(
        envelope_result.as_ref().err().map(|e| e.to_string()).as_deref(),
        Some("WebDriver BiDi text-value observation envelope is invalid")
    );
    assert_eq!(correlation.outstanding_count(), 1);

    assert!(matches!(
        WebDriverBiDiTextValueObservationResult::parse_correlate_and_compare(
            &message(ERROR_UNKNOWN_COMMAND),
            "expected",
            &mut correlation,
        ),
        Err(WebDriverBiDiTextValueObservationResponseError::Correlation { .. })
    ));
    assert_eq!(correlation.outstanding_count(), 1);

    let projection_result = WebDriverBiDiTextValueObservationResult::parse_correlate_and_compare(
        &message(MALFORMED_PROJECTION),
        "expected",
        &mut correlation,
    );
    assert!(matches!(&projection_result, Err(WebDriverBiDiTextValueObservationResponseError::Projection { .. })));
    assert_eq!(
        projection_result.as_ref().err().map(|e| e.to_string()).as_deref(),
        Some("WebDriver BiDi text-value observation result is invalid")
    );
    assert_eq!(correlation.outstanding_count(), 1);

    let correlation_result = WebDriverBiDiTextValueObservationResult::parse_correlate_and_compare(
        &message(SUCCESS_UNKNOWN_COMMAND),
        "expected",
        &mut correlation,
    );
    assert!(matches!(&correlation_result, Err(WebDriverBiDiTextValueObservationResponseError::Correlation { .. })));
    assert_eq!(
        correlation_result.as_ref().err().map(|e| e.to_string()).as_deref(),
        Some("WebDriver BiDi text-value observation response correlation failed")
    );
    assert_eq!(correlation.outstanding_count(), 1);

    let result = WebDriverBiDiTextValueObservationResult::parse_correlate_and_compare(
        &message(VALID_SUCCESS),
        FINAL_EXPECTED_TEXT,
        &mut correlation,
    )
    .expect("observed");
    assert_eq!(result.command_id(), 70);
    assert_eq!(result.observed_text_bytes(), FINAL_EXPECTED_TEXT.len());
    assert!(result.matches_expected_text());
    assert_eq!(correlation.outstanding_count(), 0);

    let debug = format!("{result:?}");
    assert!(debug.contains("WebDriverBiDiTextValueObservationResult"));
    assert!(!debug.contains(FINAL_EXPECTED_TEXT));
}
