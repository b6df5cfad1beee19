//! Typed admission of one connection-bound `session.end` response.

use vstd::prelude::*;

use crate::acknowledgement::{acknowledge, acknowledgement, AcknowledgementFailure, SpecAcknowledgement};
use crate::command_correlation::{
    WebDriverBiDiCommandCorrelation, WebDriverBiDiCommandCorrelationError, WebDriverBiDiCommandKind,
    WebDriverBiDiCorrelatedResponseOutcome,
};
use crate::error_source::WebDriverBiDiErrorSource;
use crate::json_envelope::WebDriverBiDiJsonEnvelopeError;
use crate::received_message::{WebDriverBiDiConnectionGeneration, WebDriverBiDiReceivedTextMessage};

verus! {

/// Fail-closed failures while admitting one typed WebDriver BiDi `session.end` response.
#[derive(Clone, Debug, PartialEq, Eq)]
pub enum WebDriverBiDiSessionEndResponseError {
    /// Common local-end JSON envelope validation failed before correlation state was touched.
    Envelope {
        /// Exact common-envelope validation failure.
        source: WebDriverBiDiJsonEnvelopeError,
    },
    /// Exact command-response correlation failed without consuming unrelated state.
    Correlation {
        /// Exact typed correlation failure.
        source: WebDriverBiDiCommandCorrelationError,
    },
    /// The outstanding `session.end` command lacked the connection provenance admission requires.
    MissingConnectionProvenance {
        /// Exact local command identifier left outstanding after rejection.
        command_id: u64,
    },
    /// The response was received on a different verified transport from the outstanding command.
    TransportConnectionMismatch {
        /// Exact local command identifier left outstanding after rejection.
        command_id: u64,
    },
    /// The remote end returned a correlatable WebDriver BiDi protocol error for this command.
    RemoteProtocolError {
        /// Exact local command identifier consumed by the protocol-error response.
        command_id: u64,
    },
}

impl WebDriverBiDiSessionEndResponseError {
    /// Stable operator-facing description that never includes message content.
    pub open spec fn description(&self) -> Seq<char> {
        match self {
            WebDriverBiDiSessionEndResponseError::Envelope { .. } => "WebDriver BiDi session.end envelope is invalid"@,
            WebDriverBiDiSessionEndResponseError::Correlation { .. } => "WebDriver BiDi session.end response correlation failed"@,
            WebDriverBiDiSessionEndResponseError::MissingConnectionProvenance { .. } => "WebDriver BiDi session.end response lacks connection provenance"@,
            WebDriverBiDiSessionEndResponseError::TransportConnectionMismatch { .. } => "WebDriver BiDi session.end response arrived on a different connection"@,
            WebDriverBiDiSessionEndResponseError::RemoteProtocolError { .. } => "WebDriver BiDi session.end returned a protocol error"@,
        }
    }

    /// Stable operator-facing description that never includes message content.
    pub fn to_string(&self) -> (text: String)
        ensures
            text@ == self.description(),
    {
        match self {
            WebDriverBiDiSessionEndResponseError::Envelope { .. } => "WebDriver BiDi session.end envelope is invalid".to_owned(),
            WebDriverBiDiSessionEndResponseError::Correlation { .. } => "WebDriver BiDi session.end response correlation failed".to_owned(),
            WebDriverBiDiSessionEndResponseError::MissingConnectionProvenance { .. } => "WebDriver BiDi session.end response lacks connection provenance".to_owned(),
            WebDriverBiDiSessionEndResponseError::TransportConnectionMismatch { .. } => "WebDriver BiDi session.end response arrived on a different connection".to_owned(),
            WebDriverBiDiSessionEndResponseError::RemoteProtocolError { .. } => "WebDriver BiDi session.end returned a protocol error".to_owned(),
        }
    }

    /// The wrapped envelope or correlation failure, when this error wraps one.
    pub fn source(&self) -> (source: Option<WebDriverBiDiErrorSource<'_>>)
        ensures
            match self {
                WebDriverBiDiSessionEndResponseError::Envelope { source: e } => source == Some(
                    WebDriverBiDiErrorSource::Envelope(e),
                ),
                WebDriverBiDiSessionEndResponseError::Correlation { source: e } => source == Some(
                    WebDriverBiDiErrorSource::Correlation(e),
                ),
                _ => source is None,
            },
    {
        match self {
            WebDriverBiDiSessionEndResponseError::Envelope { source } => Some(WebDriverBiDiErrorSource::Envelope(source)),
            WebDriverBiDiSessionEndResponseError::Correlation { source } => Some(WebDriverBiDiErrorSource::Correlation(source)),
            _ => None,
        }
    }
}

/// How a correlation refusal of a `session.end` response is reported: the two connection
/// refusals are reported in their own right, every other one as a correlation failure.
pub open spec fn session_end_correlation_error(c: WebDriverBiDiCommandCorrelationError) -> WebDriverBiDiSessionEndResponseError {
    match c {
        WebDriverBiDiCommandCorrelationError::CommandConnectionProvenanceMissing { command_id } =>
            WebDriverBiDiSessionEndResponseError::MissingConnectionProvenance { command_id },
        WebDriverBiDiCommandCorrelationError::ResponseConnectionMismatch { command_id } =>
            WebDriverBiDiSessionEndResponseError::TransportConnectionMismatch { command_id },
        _ => WebDriverBiDiSessionEndResponseError::Correlation { source: c },
    }
}

/// Typed protocol acknowledgment of one correlated `session.end` command, bound to the connection
/// generation on which both the command was registered and its response was read.
///
/// It proves only a correlated protocol success, not that the browser or any resource was torn down.
#[derive(Clone, Copy, Debug, PartialEq, Eq)]
pub struct WebDriverBiDiSessionEndResult {
    command_id: u64,
    connection_generation: WebDriverBiDiConnectionGeneration,
}

impl View for WebDriverBiDiSessionEndResult {
    type V = (u64, u64);

    closed spec fn view(&self) -> (u64, u64) {
        (self.command_id, self.connection_generation@)
    }
}

impl WebDriverBiDiSessionEndResult {
    /// Parse one connection-bound message and consume its exact outstanding `session.end` command.
    ///
    /// The command must have been registered as `session.end` on the same connection generation that
    /// delivered the message; a missing or different connection leaves the command outstanding.
    pub fn parse_and_correlate(
        message: &WebDriverBiDiReceivedTextMessage,
        correlation: &mut WebDriverBiDiCommandCorrelation,
    ) -> (result: Result<Self, WebDriverBiDiSessionEndResponseError>)
        ensures
            ({
                let (after, outcome) = acknowledgement(
                    message.message_bytes(),
                    old(correlation)@,
                    (Some(WebDriverBiDiCommandKind::SessionEnd), Some(message.generation())),
                );
                &&& final(correlation)@ == after
                &&& match outcome {
                    SpecAcknowledgement::Acknowledged(id) => result matches Ok(r) && r@ == (
                        id,
                        message.generation(),
                    ),
                    SpecAcknowledgement::RemoteError(id) => result == Err::<Self, WebDriverBiDiSessionEndResponseError>(
                        WebDriverBiDiSessionEndResponseError::RemoteProtocolError { command_id: id },
                    ),
                    SpecAcknowledgement::EnvelopeRefused(e) => result == Err::<Self, WebDriverBiDiSessionEndResponseError>(
                        WebDriverBiDiSessionEndResponseError::Envelope { source: e },
                    ),
                    SpecAcknowledgement::CorrelationRefused(c) => result == Err::<Self, WebDriverBiDiSessionEndResponseError>(
                        session_end_correlation_error(c),
                    ),
                }
            }),
    {
        let generation = message.connection_generation();
        match acknowledge(message.message(), correlation, Some(WebDriverBiDiCommandKind::SessionEnd), Some(generation)) {
            Ok((command_id, WebDriverBiDiCorrelatedResponseOutcome::Success)) => Ok(WebDriverBiDiSessionEndResult {
                command_id,
                connection_generation: generation,
            }),
            Ok((command_id, WebDriverBiDiCorrelatedResponseOutcome::Error)) => Err(
                WebDriverBiDiSessionEndResponseError::RemoteProtocolError { command_id },
            ),
            Err(AcknowledgementFailure::Envelope(source)) => Err(WebDriverBiDiSessionEndResponseError::Envelope { source }),
            Err(AcknowledgementFailure::Correlation(source)) => Err(match source {
                WebDriverBiDiCommandCorrelationError::CommandConnectionProvenanceMissing { command_id } =>
                    WebDriverBiDiSessionEndResponseError::MissingConnectionProvenance { command_id },
                WebDriverBiDiCommandCorrelationError::ResponseConnectionMismatch { command_id } =>
                    WebDriverBiDiSessionEndResponseError::TransportConnectionMismatch { command_id },
                _ => WebDriverBiDiSessionEndResponseError::Correlation { source },
            }),
        }
    }

    /// Return the exact local command identifier consumed by this protocol acknowledgment.
    pub fn command_id(&self) -> (id: u64)
        ensures
            id == self@.0,
    {
        self.command_id
    }

    /// Return the generation of the connection that carried both the command and its response.
    pub fn connection_generation(&self) -> (generation: WebDriverBiDiConnectionGeneration)
        ensures
            generation@ == self@.1,
    {
        self.connection_generation
    }
}

} // verus!
