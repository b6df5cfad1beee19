//! Correlated comparison of one `script.callFunction` text-value observation with the expected
//! text.

use vstd::prelude::*;
use vstd::utf8::*;

use crate::command_correlation::{
    correlate_spec, OutstandingCommands, WebDriverBiDiCommandCorrelation,
    WebDriverBiDiCommandCorrelationError, WebDriverBiDiCommandKind,
};
use crate::error_source::WebDriverBiDiErrorSource;
use crate::json_envelope::{
    parse_envelope, WebDriverBiDiJsonEnvelope, WebDriverBiDiJsonEnvelopeError,
    WebDriverBiDiJsonEnvelopeKind,
};
use crate::script_result_projection::{
    project_script_result_bytes, script_result, ScriptResultBytes, SpecScriptResult,
    WebDriverBiDiTextValueObservationProjectionError,
};
use crate::text_message::WebDriverBiDiWebSocketTextMessage;
use crate::text_policy::{
    is_control, is_control_char, is_format_injection, is_format_injection_char, is_white_space,
    is_white_space_char, MAX_WEBDRIVER_BIDI_TYPE_TEXT_BYTES,
};

verus! {

/// Fail-closed failures while admitting and comparing one text-value post-condition response.
#[derive(Clone, Debug, PartialEq, Eq)]
pub enum WebDriverBiDiTextValueObservationResponseError {
    /// The caller supplied an empty expected text value.
    EmptyExpectedText,
    /// The caller supplied expected text above the text-input byte budget.
    ExpectedTextTooLong,
    /// The expected text contains a disallowed control, white-space or format character.
    InvalidExpectedText,
    /// Common bounded WebDriver BiDi local-end envelope validation failed.
    Envelope {
        /// Exact common-envelope validation failure.
        source: WebDriverBiDiJsonEnvelopeError,
    },
    /// An event was supplied where a correlated command response is required.
    UnexpectedEvent,
    /// The command-specific `script.EvaluateResult` shape was malformed or unsupported.
    Projection {
        /// Exact non-sensitive projection failure.
        source: WebDriverBiDiTextValueObservationProjectionError,
    },
    /// Exact command-response correlation failed without consuming unrelated state.
    Correlation {
        /// Exact typed correlation failure.
        source: WebDriverBiDiCommandCorrelationError,
    },
    /// The remote end returned a correlatable top-level WebDriver BiDi protocol error.
    RemoteProtocolError {
        /// Exact local command identifier consumed by the protocol-error response.
        command_id: u64,
    },
    /// The remote end completed `script.callFunction` with a typed script exception.
    ScriptException {
        /// Exact local command identifier consumed by the script-exception result.
        command_id: u64,
    },
}

impl WebDriverBiDiTextValueObservationResponseError {
    /// Stable operator-facing description that never includes page or expected text.
    pub open spec fn description(&self) -> Seq<char> {
        match self {
            WebDriverBiDiTextValueObservationResponseError::EmptyExpectedText => "expected text-value postcondition must not be empty"@,
            WebDriverBiDiTextValueObservationResponseError::ExpectedTextTooLong => "expected text-value postcondition exceeds the local byte budget"@,
            WebDriverBiDiTextValueObservationResponseError::InvalidExpectedText => "expected text-value postcondition contains a disallowed character"@,
            WebDriverBiDiTextValueObservationResponseError::Envelope { .. } => "WebDriver BiDi text-value observation envelope is invalid"@,
            WebDriverBiDiTextValueObservationResponseError::UnexpectedEvent => "WebDriver BiDi text-value observation received an event instead of a command response"@,
            WebDriverBiDiTextValueObservationResponseError::Projection { .. } => "WebDriver BiDi text-value observation result is invalid"@,
            WebDriverBiDiTextValueObservationResponseError::Correlation { .. } => "WebDriver BiDi text-value observation response correlation failed"@,
            WebDriverBiDiTextValueObservationResponseError::RemoteProtocolError { .. } => "WebDriver BiDi text-value observation returned a protocol error"@,
            WebDriverBiDiTextValueObservationResponseError::ScriptException { .. } => "WebDriver BiDi text-value observation returned a script exception"@,
        }
    }

    /// Stable operator-facing description that never includes page or expected text.
    pub fn to_string(&self) -> (text: String)
        ensures
            text@ == self.description(),
    {
        match self {
            WebDriverBiDiTextValueObservationResponseError::EmptyExpectedText => "expected text-value postcondition must not be empty".to_owned(),
            WebDriverBiDiTextValueObservationResponseError::ExpectedTextTooLong => "expected text-value postcondition exceeds the local byte budget".to_owned(),
            WebDriverBiDiTextValueObservationResponseError::InvalidExpectedText => "expected text-value postcondition contains a disallowed character".to_owned(),
            WebDriverBiDiTextValueObservationResponseError::Envelope { .. } => "WebDriver BiDi text-value observation envelope is invalid".to_owned(),
            WebDriverBiDiTextValueObservationResponseError::UnexpectedEvent => "WebDriver BiDi text-value observation received an event instead of a command response".to_owned(),
            WebDriverBiDiTextValueObservationResponseError::Projection { .. } => "WebDriver BiDi text-value observation result is invalid".to_owned(),
            WebDriverBiDiTextValueObservationResponseError::Correlation { .. } => "WebDriver BiDi text-value observation response correlation failed".to_owned(),
            WebDriverBiDiTextValueObservationResponseError::RemoteProtocolError { .. } => "WebDriver BiDi text-value observation returned a protocol error".to_owned(),
            WebDriverBiDiTextValueObservationResponseError::ScriptException { .. } => "WebDriver BiDi text-value observation returned a script exception".to_owned(),
        }
    }

    /// The wrapped envelope, projection or correlation failure, when this error wraps one.
    pub fn source(&self) -> (source: Option<WebDriverBiDiErrorSource<'_>>)
        ensures
            match self {
                WebDriverBiDiTextValueObservationResponseError::Envelope { source: e } => source == Some(
                    WebDriverBiDiErrorSource::Envelope(e),
                ),
                WebDriverBiDiTextValueObservationResponseError::Projection { source: e } => source == Some(
                    WebDriverBiDiErrorSource::Projection(e),
                ),
                WebDriverBiDiTextValueObservationResponseError::Correlation { source: e } => source == Some(
                    WebDriverBiDiErrorSource::Correlation(e),
                ),
                _ => source is None,
            },
    {
        match self {
            WebDriverBiDiTextValueObservationResponseError::Envelope { source } => Some(WebDriverBiDiErrorSource::Envelope(source)),
            WebDriverBiDiTextValueObservationResponseError::Projection { source } => Some(WebDriverBiDiErrorSource::Projection(source)),
            WebDriverBiDiTextValueObservationResponseError::Correlation { source } => Some(WebDriverBiDiErrorSource::Correlation(source)),
            _ => None,
        }
    }
}

/// Characters refused in expected text: controls, white space other than the plain space, and
/// invisible format characters.
pub open spec fn is_disallowed_expected_char(c: char) -> bool {
    (is_white_space_char(c) && c != ' ') || is_control_char(c) || is_format_injection_char(c)
}

/// Why `expected` may not be compared against, if it may not.
pub open spec fn expected_text_refusal(expected: Seq<char>) -> Option<WebDriverBiDiTextValueObservationResponseError> {
    if expected.len() == 0 {
        Some(WebDriverBiDiTextValueObservationResponseError::EmptyExpectedText)
    } else if encode_utf8(expected).len() > MAX_WEBDRIVER_BIDI_TYPE_TEXT_BYTES {
        Some(WebDriverBiDiTextValueObservationResponseError::ExpectedTextTooLong)
    } else if exists|i: int| 0 <= i < expected.len() && is_disallowed_expected_char(#[trigger] expected[i]) {
        Some(WebDriverBiDiTextValueObservationResponseError::InvalidExpectedText)
    } else {
        None
    }
}

/// Check expected text against the byte budget and the character policy.
pub fn validate_expected_text(expected_text: &str) -> (result: Result<(), WebDriverBiDiTextValueObservationResponseError>)
    ensures
        match expected_text_refusal(expected_text@) {
            Some(e) => result == Err::<(), WebDriverBiDiTextValueObservationResponseError>(e),
            None => result is Ok,
        },
{
    if expected_text.is_empty() {
        return Err(WebDriverBiDiTextValueObservationResponseError::EmptyExpectedText);
    }
    if expected_text.as_bytes().len() > MAX_WEBDRIVER_BIDI_TYPE_TEXT_BYTES {
        return Err(WebDriverBiDiTextValueObservationResponseError::ExpectedTextTooLong);
    }
    proof {
        broadcast use vstd::string::axiom_spec_iter;
    }
    for c in it: expected_text.chars()
        invariant
            it.seq() == expected_text@,
            expected_text@.len() > 0,
            encode_utf8(expected_text@).len() <= MAX_WEBDRIVER_BIDI_TYPE_TEXT_BYTES,
            forall|j: int| 0 <= j < it.index() ==> !is_disallowed_expected_char(#[trigger] it.seq()[j]),
    {
        if (is_white_space(c) && c != ' ') || is_control(c) || is_format_injection(c) {
            proof {
                assert(is_disallowed_expected_char(expected_text@[it.index() as int]));

            }
            return Err(WebDriverBiDiTextValueObservationResponseError::InvalidExpectedText);
        }
    }
    Ok(())
}

/// Admission of one text-value observation response against the outstanding commands: the
/// outstanding commands afterwards, and the correlated identifier with the observed byte count and
/// whether the observed text equals `expected`, or the refusal.
///
/// The expected text is checked first, then the envelope; a successful result is projected before
/// correlation so that a malformed body never consumes an identifier.
pub open spec fn text_value_response(s: Seq<u8>, expected: Seq<char>, outstanding: OutstandingCommands) -> (
    OutstandingCommands,
    Result<(u64, nat, bool), WebDriverBiDiTextValueObservationResponseError>,
) {
    let provenance = (Some(WebDriverBiDiCommandKind::TextValueObservation), None::<u64>);
    match expected_text_refusal(expected) {
        Some(e) => (outstanding, Err(e)),
        None => match parse_envelope(s) {
            Err(e) => (outstanding, Err(WebDriverBiDiTextValueObservationResponseError::Envelope { source: e })),
            Ok(envelope) => match envelope.kind {
                WebDriverBiDiJsonEnvelopeKind::Event => (
                    outstanding,
                    Err(WebDriverBiDiTextValueObservationResponseError::UnexpectedEvent),
                ),
                WebDriverBiDiJsonEnvelopeKind::Error => match correlate_spec(outstanding, envelope, provenance) {
                    Err(c) => (outstanding, Err(WebDriverBiDiTextValueObservationResponseError::Correlation { source: c })),
                    Ok((after, (id, _))) => (
                        after,
                        Err(WebDriverBiDiTextValueObservationResponseError::RemoteProtocolError { command_id: id }),
                    ),
                },
                WebDriverBiDiJsonEnvelopeKind::Success => match script_result(s) {
                    Err(p) => (outstanding, Err(WebDriverBiDiTextValueObservationResponseError::Projection { source: p })),
                    Ok(projected) => match correlate_spec(outstanding, envelope, provenance) {
                        Err(c) => (outstanding, Err(WebDriverBiDiTextValueObservationResponseError::Correlation { source: c })),
                        Ok((after, (id, _))) => match projected {
                            SpecScriptResult::Exception => (
                                after,
                                Err(WebDriverBiDiTextValueObservationResponseError::ScriptException { command_id: id }),
                            ),
                            SpecScriptResult::Text(observed) => (
                                after,
                                Ok((id, observed.len(), observed == encode_utf8(expected))),
                            ),
                        },
                    },
                },
            },
        },
    }
}

/// Result of comparing one correlated text-value observation with the expected text.
///
/// The observed page string is never retained: only the matched command id, the observed UTF-8
/// byte count, and whether it equalled the expected text.
#[derive(Clone, Copy, Debug, PartialEq, Eq)]
pub struct WebDriverBiDiTextValueObservationResult {
    command_id: u64,
    observed_text_bytes: usize,
    matches_expected_text: bool,
}

impl View for WebDriverBiDiTextValueObservationResult {
    type V = (u64, nat, bool);

    closed spec fn view(&self) -> (u64, nat, bool) {
        (self.command_id, self.observed_text_bytes as nat, self.matches_expected_text)
    }
}

impl WebDriverBiDiTextValueObservationResult {
    /// Parse one bounded response, consume its exact outstanding text-value observation command,
    /// and compare the observed string with `expected_text`.
    pub fn parse_correlate_and_compare(
        message: &WebDriverBiDiWebSocketTextMessage,
        expected_text: &str,
        correlation: &mut WebDriverBiDiCommandCorrelation,
    ) -> (result: Result<Self, WebDriverBiDiTextValueObservationResponseError>)
        ensures
            ({
                let (after, expected) = text_value_response(message.bytes(), expected_text@, old(correlation)@);
                &&& final(correlation)@ == after
                &&& match expected {
                    Ok(v) => result matches Ok(r) && r@ == v,
                    Err(e) => result == Err::<Self, WebDriverBiDiTextValueObservationResponseError>(e),
                }
            }),
    {
        match validate_expected_text(expected_text) {
            Ok(()) => {},
            Err(e) => return Err(e),
        }
        let envelope = match WebDriverBiDiJsonEnvelope::parse(message) {
            Ok(envelope) => envelope,
            Err(source) => return Err(WebDriverBiDiTextValueObservationResponseError::Envelope { source }),
        };
        match envelope.kind() {
            WebDriverBiDiJsonEnvelopeKind::Event => Err(WebDriverBiDiTextValueObservationResponseError::UnexpectedEvent),
            WebDriverBiDiJsonEnvelopeKind::Error => {
                match correlation.correlate_response_for(&envelope, WebDriverBiDiCommandKind::TextValueObservation) {
                    Ok(completed) => Err(WebDriverBiDiTextValueObservationResponseError::RemoteProtocolError {
                        command_id: completed.command_id(),
                    }),
                    Err(source) => Err(WebDriverBiDiTextValueObservationResponseError::Correlation { source }),
                }
            },
            WebDriverBiDiJsonEnvelopeKind::Success => {
                let projected = match project_script_result_bytes(message.as_bytes()) {
                    Ok(p) => p,
                    Err(source) => return Err(WebDriverBiDiTextValueObservationResponseError::Projection { source }),
                };
                let completed = match correlation.correlate_response_for(
                    &envelope,
                    WebDriverBiDiCommandKind::TextValueObservation,
                ) {
                    Ok(completed) => completed,
                    Err(source) => return Err(WebDriverBiDiTextValueObservationResponseError::Correlation { source }),
                };
                match projected {
                    ScriptResultBytes::Exception => Err(WebDriverBiDiTextValueObservationResponseError::ScriptException {
                        command_id: completed.command_id(),
                    }),
                    ScriptResultBytes::Text(observed) => {
                        let matches_expected_text = crate::json_text::bytes_equal(
                            observed.as_slice(),
                            expected_text.as_bytes(),
                        );
                        Ok(WebDriverBiDiTextValueObservationResult {
                            command_id: completed.command_id(),
                            observed_text_bytes: observed.len(),
                            matches_expected_text,
                        })
                    },
                }
            },
        }
    }

    /// Return the exact local command identifier consumed by this observation response.
    pub fn command_id(&self) -> (id: u64)
        ensures
            id == self@.0,
    {
        self.command_id
    }

    /// Return the UTF-8 byte length of the observed string.
    pub fn observed_text_bytes(&self) -> (count: usize)
        ensures
            count == self@.1,
    {
        self.observed_text_bytes
    }

    /// Return whether the observed page value exactly matched the expected text.
    pub fn matches_expected_text(&self) -> (matches: bool)
        ensures
            matches == self@.2,
    {
        self.matches_expected_text
    }
}


/// A text-value observation reports a match exactly when the page's string, as the script result
/// projects it, is byte for byte the UTF-8 encoding of the expected text; the reported length is
/// that string's byte count. Equal lengths alone never make a match.
pub proof fn lemma_observation_matches_exactly_the_expected_text(
    s: Seq<u8>,
    expected: Seq<char>,
    outstanding: OutstandingCommands,
)
    ensures
        text_value_response(s, expected, outstanding).1 matches Ok((_, observed_len, matched)) ==> {
            &&& script_result(s) matches Ok(SpecScriptResult::Text(observed))
            &&& observed_len == observed.len()
            &&& (matched <==> observed == encode_utf8(expected))
        },
{
}

} // verus!
