//! One-shot typed-input intents: the witness minted when the typed-input command is sent, and its
//! binding to the exact protocol acknowledgment of that command.

use vstd::prelude::*;
use vstd::utf8::*;

use crate::acknowledgement::{acknowledge, acknowledgement, AcknowledgementFailure, SpecAcknowledgement};
use crate::command_correlation::{
    registration_outcome, OutstandingCommands, WebDriverBiDiCommandCorrelation, WebDriverBiDiCommandCorrelationError,
    WebDriverBiDiCommandKind, WebDriverBiDiCorrelatedResponseOutcome,
};
use crate::error_source::WebDriverBiDiErrorSource;
use crate::json_envelope::{
    parse_envelope, routing_of, WebDriverBiDiJsonEnvelope, WebDriverBiDiJsonEnvelopeError,
    WebDriverBiDiJsonEnvelopeRouting,
};
use crate::received_message::{WebDriverBiDiConnectionGeneration, WebDriverBiDiReceivedTextMessage};
use crate::text_message::str_from_utf8;

verus! {

/// Fail-closed failures while admitting one typed-input protocol acknowledgment.
#[derive(Clone, Debug, PartialEq, Eq)]
pub enum WebDriverBiDiTypeTextResponseError {
    /// Common local-end JSON envelope validation failed before correlation state was touched.
    Envelope {
        /// Exact common-envelope validation failure.
        source: WebDriverBiDiJsonEnvelopeError,
    },
    /// Exact command-response correlation failed without consuming unrelated state.
    Correlation {
        /// Exact typed correlation failure.
        source: WebDriverBiDiCommandCorrelationError,
    },
    /// The remote end returned a correlatable WebDriver BiDi protocol error for this command.
    RemoteProtocolError {
        /// Exact local command identifier consumed by the protocol-error response.
        command_id: u64,
    },
}

impl WebDriverBiDiTypeTextResponseError {
    /// Stable operator-facing description.
    pub open spec fn description(&self) -> Seq<char> {
        match self {
            WebDriverBiDiTypeTextResponseError::Envelope { .. } => "WebDriver BiDi text-input envelope is invalid"@,
            WebDriverBiDiTypeTextResponseError::Correlation { .. } => "WebDriver BiDi text-input response correlation failed"@,
            WebDriverBiDiTypeTextResponseError::RemoteProtocolError { .. } => "WebDriver BiDi text-input returned a protocol error"@,
        }
    }

    /// Stable operator-facing description.
    pub fn to_string(&self) -> (text: String)
        ensures
            text@ == self.description(),
    {
        match self {
            WebDriverBiDiTypeTextResponseError::Envelope { .. } => "WebDriver BiDi text-input envelope is invalid".to_owned(),
            WebDriverBiDiTypeTextResponseError::Correlation { .. } => "WebDriver BiDi text-input response correlation failed".to_owned(),
            WebDriverBiDiTypeTextResponseError::RemoteProtocolError { .. } => "WebDriver BiDi text-input returned a protocol error".to_owned(),
        }
    }
}

/// Fail-closed failures while binding a typed-input acknowledgment to its sender-minted intent.
#[derive(Clone, Debug, PartialEq, Eq)]
pub enum WebDriverBiDiTypeTextIntentAcknowledgementError {
    /// The received message belongs to another verified connection.
    ResponseConnectionMismatch,
    /// The received response names a different command identifier than the witness.
    ResponseCommandMismatch,
    /// The typed response boundary rejected the acknowledgment.
    Response {
        /// Exact typed response-admission failure.
        source: WebDriverBiDiTypeTextResponseError,
    },
}

impl WebDriverBiDiTypeTextIntentAcknowledgementError {
    /// Stable operator-facing description.
    pub open spec fn description(&self) -> Seq<char> {
        match self {
            WebDriverBiDiTypeTextIntentAcknowledgementError::ResponseConnectionMismatch => "WebDriver BiDi text-input ACK arrived on a different connection than its intent"@,
            WebDriverBiDiTypeTextIntentAcknowledgementError::ResponseCommandMismatch => "WebDriver BiDi text-input ACK does not match its sender-minted intent"@,
            WebDriverBiDiTypeTextIntentAcknowledgementError::Response { .. } => "WebDriver BiDi text-input intent acknowledgement failed"@,
        }
    }

    /// Stable operator-facing description.
    pub fn to_string(&self) -> (text: String)
        ensures
            text@ == self.description(),
    {
        match self {
            WebDriverBiDiTypeTextIntentAcknowledgementError::ResponseConnectionMismatch => "WebDriver BiDi text-input ACK arrived on a different connection than its intent".to_owned(),
            WebDriverBiDiTypeTextIntentAcknowledgementError::ResponseCommandMismatch => "WebDriver BiDi text-input ACK does not match its sender-minted intent".to_owned(),
            WebDriverBiDiTypeTextIntentAcknowledgementError::Response { .. } => "WebDriver BiDi text-input intent acknowledgement failed".to_owned(),
        }
    }

    /// The wrapped response failure, when this error wraps one.
    pub fn source(&self) -> (source: Option<&WebDriverBiDiTypeTextResponseError>)
        ensures
            match self {
                WebDriverBiDiTypeTextIntentAcknowledgementError::Response { source: e } => source == Some(e),
                _ => source is None,
            },
    {
        match self {
            WebDriverBiDiTypeTextIntentAcknowledgementError::Response { source } => Some(source),
            _ => None,
        }
    }
}

/// Sender-minted one-shot witness for the exact text intent dispatched by one typed-input command:
/// the command identifier, the connection generation that carried it, and the text, kept as UTF-8
/// bytes so that a debug rendering never shows it as text. It is neither `Clone` nor `Copy`.
#[derive(Debug)]
pub struct WebDriverBiDiTypeTextIntentWitness {
    command_id: u64,
    connection_generation: WebDriverBiDiConnectionGeneration,
    expected_text: Vec<u8>,
}

impl View for WebDriverBiDiTypeTextIntentWitness {
    type V = (u64, u64, Seq<u8>);

    closed spec fn view(&self) -> (u64, u64, Seq<u8>) {
        (self.command_id, self.connection_generation@, self.expected_text@)
    }
}

fn owned_bytes(text: &str) -> (bytes: Vec<u8>)
    ensures
        bytes@ == encode_utf8(text@),
        valid_utf8(bytes@),
{
    let source = text.as_bytes();
    let mut owned: Vec<u8> = Vec::new();
    let mut k: usize = 0;
    while k < source.len()
        invariant
            k <= source@.len(),
            owned@ == source@.subrange(0, k as int),
        decreases source@.len() - k,
    {
        owned.push(source[k]);
        k = k + 1;
        assert(owned@ =~= source@.subrange(0, k as int));
    }
    assert(owned@ =~= source@);
    proof {
        encode_utf8_valid_utf8(text@);
    }
    owned
}

impl WebDriverBiDiTypeTextIntentWitness {
    /// The text is UTF-8.
    #[verifier::type_invariant]
    pub open spec fn text_is_utf8(&self) -> bool {
        valid_utf8(self@.2)
    }

    /// Mint the witness for the typed-input command `command_id`, just written on the connection
    /// `connection_generation`, that typed `text`.
    fn new(command_id: u64, connection_generation: WebDriverBiDiConnectionGeneration, text: &str) -> (witness: Self)
        ensures
            witness@ == (command_id, connection_generation@, encode_utf8(text@)),
    {
        WebDriverBiDiTypeTextIntentWitness {
            command_id,
            connection_generation,
            expected_text: owned_bytes(text),
        }
    }

    /// Return the typed-input command identifier this witness was minted for.
    pub fn command_id(&self) -> (id: u64)
        ensures
            id == self@.0,
    {
        self.command_id
    }
}

/// One-shot proof that the exact sender-minted typed-input intent received its correlated protocol
/// acknowledgment on the connection that carried it. The text is kept as UTF-8 bytes.
#[derive(Debug)]
pub struct WebDriverBiDiAcknowledgedTypeTextIntent {
    command_id: u64,
    connection_generation: WebDriverBiDiConnectionGeneration,
    expected_text: Vec<u8>,
}

impl View for WebDriverBiDiAcknowledgedTypeTextIntent {
    type V = (u64, u64, Seq<u8>);

    closed spec fn view(&self) -> (u64, u64, Seq<u8>) {
        (self.command_id, self.connection_generation@, self.expected_text@)
    }
}

impl WebDriverBiDiAcknowledgedTypeTextIntent {
    /// The text is UTF-8.
    #[verifier::type_invariant]
    pub open spec fn text_is_utf8(&self) -> bool {
        valid_utf8(self@.2)
    }

    /// Return the exact local typed-input command identifier acknowledged for this intent.
    pub fn command_id(&self) -> (id: u64)
        ensures
            id == self@.0,
    {
        self.command_id
    }

    /// Whether `generation` is the connection that carried and acknowledged this intent.
    pub fn matches_connection_generation(&self, generation: WebDriverBiDiConnectionGeneration) -> (matches: bool)
        ensures
            matches == (generation@ == self@.1),
    {
        self.connection_generation.value() == generation.value()
    }

    /// Borrow the typed text.
    pub fn expected_text(&self) -> (text: &str)
        ensures
            encode_utf8(text@) == self@.2,
    {
        proof {
            use_type_invariant(self);
        }
        match str_from_utf8(self.expected_text.as_slice()) {
            Some(text) => {
                proof {
                    decode_utf8_encode_utf8(self@.2);
                }
                text
            },
            None => {
                proof {
                    assert(false);
                }
                ""
            },
        }
    }
}

/// The command identifier an envelope answers, when it answers one.
pub open spec fn answered_command(routing: WebDriverBiDiJsonEnvelopeRouting) -> Option<u64> {
    match routing {
        WebDriverBiDiJsonEnvelopeRouting::CommandSuccess { command_id } => Some(command_id),
        WebDriverBiDiJsonEnvelopeRouting::CommandError { command_id } => command_id,
        WebDriverBiDiJsonEnvelopeRouting::Event => None,
    }
}

/// Binding one typed-input acknowledgment, read on connection `generation`, to the witness
/// `(command_id, witness_generation, text)`: the outstanding commands afterwards, and the
/// acknowledged command identifier or the refusal.
///
/// Connection and command checks run before correlation, so a foreign connection or a response to
/// another command never consumes an outstanding command.
pub open spec fn type_text_acknowledgement(
    s: Seq<u8>,
    generation: u64,
    command_id: u64,
    witness_generation: u64,
    outstanding: OutstandingCommands,
) -> (OutstandingCommands, Result<u64, WebDriverBiDiTypeTextIntentAcknowledgementError>) {
    if generation != witness_generation {
        (outstanding, Err(WebDriverBiDiTypeTextIntentAcknowledgementError::ResponseConnectionMismatch))
    } else {
        match parse_envelope(s) {
            Err(e) => (
                outstanding,
                Err(WebDriverBiDiTypeTextIntentAcknowledgementError::Response {
                    source: WebDriverBiDiTypeTextResponseError::Envelope { source: e },
                }),
            ),
            Ok(envelope) => if answered_command(routing_of(envelope)) matches Some(id) && id != command_id {
                (outstanding, Err(WebDriverBiDiTypeTextIntentAcknowledgementError::ResponseCommandMismatch))
            } else {
                let (after, outcome) = acknowledgement(
                    s,
                    outstanding,
                    (Some(WebDriverBiDiCommandKind::TypeText), Some(generation)),
                );
                (after, match outcome {
                    SpecAcknowledgement::Acknowledged(id) => if id != command_id {
                        Err(WebDriverBiDiTypeTextIntentAcknowledgementError::ResponseCommandMismatch)
                    } else {
                        Ok(id)
                    },
                    SpecAcknowledgement::RemoteError(id) => Err(WebDriverBiDiTypeTextIntentAcknowledgementError::Response {
                        source: WebDriverBiDiTypeTextResponseError::RemoteProtocolError { command_id: id },
                    }),
                    SpecAcknowledgement::EnvelopeRefused(e) => Err(WebDriverBiDiTypeTextIntentAcknowledgementError::Response {
                        source: WebDriverBiDiTypeTextResponseError::Envelope { source: e },
                    }),
                    SpecAcknowledgement::CorrelationRefused(c) => Err(WebDriverBiDiTypeTextIntentAcknowledgementError::Response {
                        source: WebDriverBiDiTypeTextResponseError::Correlation { source: c },
                    }),
                })
            },
        }
    }
}

/// Admit one typed-input protocol acknowledgment and consume the exact sender-minted witness.
///
/// The typed-input command must have been registered as typed input on the connection that carried
/// it; the acknowledgment must arrive on that same connection and name the witness's command.
pub fn acknowledge_webdriver_bidi_type_text_intent(
    message: &WebDriverBiDiReceivedTextMessage,
    witness: WebDriverBiDiTypeTextIntentWitness,
    correlation: &mut WebDriverBiDiCommandCorrelation,
) -> (result: Result<WebDriverBiDiAcknowledgedTypeTextIntent, WebDriverBiDiTypeTextIntentAcknowledgementError>)
    ensures
        ({
            let (after, expected) = type_text_acknowledgement(
                message.message_bytes(),
                message.generation(),
                witness@.0,
                witness@.1,
                old(correlation)@,
            );
            &&& final(correlation)@ == after
            &&& match expected {
                Ok(id) => result matches Ok(intent) && intent@ == (id, witness@.1, witness@.2),
                Err(e) => result == Err::<
                    WebDriverBiDiAcknowledgedTypeTextIntent,
                    WebDriverBiDiTypeTextIntentAcknowledgementError,
                >(e),
            }
        }),
{
    proof {
        use_type_invariant(&witness);
    }
    let generation = message.connection_generation();
    if generation.value() != witness.connection_generation.value() {
        return Err(WebDriverBiDiTypeTextIntentAcknowledgementError::ResponseConnectionMismatch);
    }
    let envelope = match WebDriverBiDiJsonEnvelope::parse(message.message()) {
        Ok(envelope) => envelope,
        Err(source) => return Err(WebDriverBiDiTypeTextIntentAcknowledgementError::Response {
            source: WebDriverBiDiTypeTextResponseError::Envelope { source },
        }),
    };
    let answered = match envelope.routing() {
        WebDriverBiDiJsonEnvelopeRouting::CommandSuccess { command_id } => Some(command_id),
        WebDriverBiDiJsonEnvelopeRouting::CommandError { command_id } => command_id,
        WebDriverBiDiJsonEnvelopeRouting::Event => None,
    };
    match answered {
        Some(id) => if id != witness.command_id {
            return Err(WebDriverBiDiTypeTextIntentAcknowledgementError::ResponseCommandMismatch);
        },
        None => {},
    }
    match acknowledge(message.message(), correlation, Some(WebDriverBiDiCommandKind::TypeText), Some(generation)) {
        Ok((command_id, WebDriverBiDiCorrelatedResponseOutcome::Success)) => {
            if command_id != witness.command_id {
                return Err(WebDriverBiDiTypeTextIntentAcknowledgementError::ResponseCommandMismatch);
            }
            Ok(WebDriverBiDiAcknowledgedTypeTextIntent {
                command_id: witness.command_id,
                connection_generation: witness.connection_generation,
                expected_text: witness.expected_text,
            })
        },
        Ok((command_id, WebDriverBiDiCorrelatedResponseOutcome::Error)) => Err(
            WebDriverBiDiTypeTextIntentAcknowledgementError::Response {
                source: WebDriverBiDiTypeTextResponseError::RemoteProtocolError { command_id },
            },
        ),
        Err(AcknowledgementFailure::Envelope(source)) => Err(WebDriverBiDiTypeTextIntentAcknowledgementError::Response {
            source: WebDriverBiDiTypeTextResponseError::Envelope { source },
        }),
        Err(AcknowledgementFailure::Correlation(source)) => Err(WebDriverBiDiTypeTextIntentAcknowledgementError::Response {
            source: WebDriverBiDiTypeTextResponseError::Correlation { source },
        }),
    }
}


/// Register the typed-input command `command_id` as typed input on the connection
/// `connection_generation`, before its frame is written, and mint the one-shot witness of the text
/// it types. A refused registration mints nothing and means nothing may be written.
pub fn register_webdriver_bidi_type_text_intent(
    correlation: &mut WebDriverBiDiCommandCorrelation,
    command_id: u64,
    connection_generation: WebDriverBiDiConnectionGeneration,
    text: &str,
) -> (result: Result<WebDriverBiDiTypeTextIntentWitness, WebDriverBiDiCommandCorrelationError>)
    ensures
        registration_outcome(
            old(correlation)@,
            final(correlation)@,
            command_id,
            (Some(WebDriverBiDiCommandKind::TypeText), Some(connection_generation@)),
            match result {
                Ok(_) => Ok(()),
                Err(e) => Err(e),
            },
        ),
        result matches Ok(witness) ==> witness@ == (command_id, connection_generation@, encode_utf8(text@)),
{
    match correlation.register_command_for_connection(
        command_id,
        WebDriverBiDiCommandKind::TypeText,
        connection_generation,
    ) {
        Ok(()) => Ok(WebDriverBiDiTypeTextIntentWitness::new(command_id, connection_generation, text)),
        Err(e) => Err(e),
    }
}

} // verus!
