//! Positive text-value post-condition evidence: a correlated observation that exactly matches the
//! acknowledged typed-input intent that preceded it on the same connection.

use vstd::prelude::*;
use vstd::utf8::*;

use crate::command_correlation::WebDriverBiDiCommandCorrelation;
use crate::received_message::WebDriverBiDiReceivedTextMessage;
use crate::text_value_observation_response::{
    text_value_response, WebDriverBiDiTextValueObservationResponseError,
    WebDriverBiDiTextValueObservationResult,
};
use crate::type_text_intent::WebDriverBiDiAcknowledgedTypeTextIntent;

verus! {

/// Failure to produce positive text-value post-condition evidence from one correlated response.
#[derive(Clone, Debug, PartialEq, Eq)]
pub enum WebDriverBiDiTextValuePostconditionError {
    /// The observation arrived on a different connection than the acknowledged typed-input intent.
    ObservationConnectionMismatch,
    /// The underlying bounded response admission or correlation failed.
    Observation {
        /// Exact typed lower-boundary failure.
        source: WebDriverBiDiTextValueObservationResponseError,
    },
    /// The response was valid and correlated, but the observed page value differed from the intent.
    PostconditionMismatch {
        /// Acknowledged typed-input command whose intent was compared.
        type_text_command_id: u64,
        /// Observation command identifier consumed by the negative observation.
        command_id: u64,
        /// UTF-8 byte count of the mismatched page value.
        observed_text_bytes: usize,
    },
}

impl WebDriverBiDiTextValuePostconditionError {
    /// Stable operator-facing description.
    pub open spec fn description(&self) -> Seq<char> {
        match self {
            WebDriverBiDiTextValuePostconditionError::ObservationConnectionMismatch => "WebDriver BiDi text-value postcondition observation arrived on a different connection than the acknowledged typed-input intent"@,
            WebDriverBiDiTextValuePostconditionError::Observation { .. } => "WebDriver BiDi text-value postcondition observation failed"@,
            WebDriverBiDiTextValuePostconditionError::PostconditionMismatch { .. } => "WebDriver BiDi text-value postcondition did not match the acknowledged typed-input intent"@,
        }
    }

    /// Stable operator-facing description.
    pub fn to_string(&self) -> (text: String)
        ensures
            text@ == self.description(),
    {
        match self {
            WebDriverBiDiTextValuePostconditionError::ObservationConnectionMismatch => "WebDriver BiDi text-value postcondition observation arrived on a different connection than the acknowledged typed-input intent".to_owned(),
            WebDriverBiDiTextValuePostconditionError::Observation { .. } => "WebDriver BiDi text-value postcondition observation failed".to_owned(),
            WebDriverBiDiTextValuePostconditionError::PostconditionMismatch { .. } => "WebDriver BiDi text-value postcondition did not match the acknowledged typed-input intent".to_owned(),
        }
    }

    /// The wrapped observation failure, when this error wraps one.
    pub fn source(&self) -> (source: Option<&WebDriverBiDiTextValueObservationResponseError>)
        ensures
            match self {
                WebDriverBiDiTextValuePostconditionError::Observation { source: e } => source == Some(e),
                _ => source is None,
            },
    {
        match self {
            WebDriverBiDiTextValuePostconditionError::Observation { source } => Some(source),
            _ => None,
        }
    }
}

/// Proof that one correlated text observation matched the acknowledged typed-input intent that
/// preceded it on the same connection. The page text itself is not retained.
#[derive(Clone, Copy, Debug, PartialEq, Eq)]
pub struct WebDriverBiDiTextValuePostcondition {
    type_text_command_id: u64,
    command_id: u64,
    observed_text_bytes: usize,
}

impl View for WebDriverBiDiTextValuePostcondition {
    type V = (u64, u64, nat);

    closed spec fn view(&self) -> (u64, u64, nat) {
        (self.type_text_command_id, self.command_id, self.observed_text_bytes as nat)
    }
}

impl WebDriverBiDiTextValuePostcondition {
    /// Return the typed-input command identifier whose acknowledged intent was verified.
    pub fn type_text_command_id(&self) -> (id: u64)
        ensures
            id == self@.0,
    {
        self.type_text_command_id
    }

    /// Return the command identifier consumed by the verified observation response.
    pub fn command_id(&self) -> (id: u64)
        ensures
            id == self@.1,
    {
        self.command_id
    }

    /// Return the UTF-8 byte count of the matched page value.
    pub fn observed_text_bytes(&self) -> (count: usize)
        ensures
            count == self@.2,
    {
        self.observed_text_bytes
    }
}

/// Verifying one observation, read on connection `generation`, against the acknowledged intent
/// `(type_text_command_id, intent_generation, text)`: the outstanding commands afterwards and the
/// evidence or the refusal. A connection mismatch is refused before anything is consumed.
pub open spec fn text_value_postcondition(
    s: Seq<u8>,
    generation: u64,
    intent: (u64, u64, Seq<u8>),
    outstanding: crate::command_correlation::OutstandingCommands,
) -> (
    crate::command_correlation::OutstandingCommands,
    Result<(u64, u64, nat), WebDriverBiDiTextValuePostconditionError>,
) {
    if generation != intent.1 {
        (outstanding, Err(WebDriverBiDiTextValuePostconditionError::ObservationConnectionMismatch))
    } else {
        let (after, observed) = text_value_response(s, decode_utf8(intent.2), outstanding);
        (after, match observed {
            Err(e) => Err(WebDriverBiDiTextValuePostconditionError::Observation { source: e }),
            Ok((id, n, matches)) => if !matches {
                Err(WebDriverBiDiTextValuePostconditionError::PostconditionMismatch {
                    type_text_command_id: intent.0,
                    command_id: id,
                    observed_text_bytes: n as usize,
                })
            } else {
                Ok((intent.0, id, n))
            },
        })
    }
}

/// Admit one correlated text observation and succeed only when its page value exactly matches the
/// acknowledged typed-input intent, consuming that intent.
pub fn verify_webdriver_bidi_text_value_postcondition(
    message: &WebDriverBiDiReceivedTextMessage,
    acknowledged_intent: WebDriverBiDiAcknowledgedTypeTextIntent,
    correlation: &mut WebDriverBiDiCommandCorrelation,
) -> (result: Result<WebDriverBiDiTextValuePostcondition, WebDriverBiDiTextValuePostconditionError>)
    ensures
        ({
            let (after, expected) = text_value_postcondition(
                message.message_bytes(),
                message.generation(),
                acknowledged_intent@,
                old(correlation)@,
            );
            &&& final(correlation)@ == after
            &&& match expected {
                Ok(v) => result matches Ok(r) && r@ == v,
                Err(e) => result == Err::<WebDriverBiDiTextValuePostcondition, WebDriverBiDiTextValuePostconditionError>(e),
            }
        }),
{
    proof {
        use_type_invariant(&acknowledged_intent);
    }
    if !acknowledged_intent.matches_connection_generation(message.connection_generation()) {
        return Err(WebDriverBiDiTextValuePostconditionError::ObservationConnectionMismatch);
    }
    let type_text_command_id = acknowledged_intent.command_id();
    let expected_text = acknowledged_intent.expected_text();
    proof {
        decode_utf8_encode_utf8(acknowledged_intent@.2);
        encode_utf8_decode_utf8(expected_text@);
    }
    let observation = match WebDriverBiDiTextValueObservationResult::parse_correlate_and_compare(
        message.message(),
        expected_text,
        correlation,
    ) {
        Ok(observation) => observation,
        Err(source) => return Err(WebDriverBiDiTextValuePostconditionError::Observation { source }),
    };
    if !observation.matches_expected_text() {
        return Err(WebDriverBiDiTextValuePostconditionError::PostconditionMismatch {
            type_text_command_id,
            command_id: observation.command_id(),
            observed_text_bytes: observation.observed_text_bytes(),
        });
    }
    Ok(WebDriverBiDiTextValuePostcondition {
        type_text_command_id,
        command_id: observation.command_id(),
        observed_text_bytes: observation.observed_text_bytes(),
    })
}

} // verus!
