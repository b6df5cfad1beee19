//! Typed admission of one correlated pointer-click (`input.performActions`) response.

use vstd::prelude::*;

use crate::acknowledgement::{acknowledge, acknowledgement, AcknowledgementFailure, SpecAcknowledgement};
use crate::command_correlation::{
    WebDriverBiDiCommandCorrelation, WebDriverBiDiCommandCorrelationError, WebDriverBiDiCommandKind,
    WebDriverBiDiCorrelatedResponseOutcome,
};
use crate::error_source::WebDriverBiDiErrorSource;
use crate::json_envelope::WebDriverBiDiJsonEnvelopeError;
use crate::text_message::WebDriverBiDiWebSocketTextMessage;

verus! {

/// Fail-closed failures while admitting one typed WebDriver BiDi pointer-click response.
#[derive(Clone, Debug, PartialEq, Eq)]
pub enum WebDriverBiDiPointerClickResponseError {
    /// Common local-end JSON envelope validation failed before correlation state was touched.
    Envelope {
        /// Exact common-envelope validation failure.
        source: WebDriverBiDiJsonEnvelopeError,
    },
    /// Exact command-response correlation failed without consuming unrelated state.
    Correlation {
        /// Exact typed correlation failure.
        source: WebDriverBiDiCommandCorrelationError,
    },
    /// The remote end returned a correlatable WebDriver BiDi protocol error for this command.
    RemoteProtocolError {
        /// Exact local command identifier consumed by the protocol-error response.
        command_id: u64,
    },
}

impl WebDriverBiDiPointerClickResponseError {
    /// Stable operator-facing description that never includes message content.
    pub open spec fn description(&self) -> Seq<char> {
        match self {
            WebDriverBiDiPointerClickResponseError::Envelope { .. } => "WebDriver BiDi pointer-click envelope is invalid"@,
            WebDriverBiDiPointerClickResponseError::Correlation { .. } => "WebDriver BiDi pointer-click response correlation failed"@,
            WebDriverBiDiPointerClickResponseError::RemoteProtocolError { .. } => "WebDriver BiDi pointer-click returned a protocol error"@,
        }
    }

    /// Stable operator-facing description that never includes message content.
    pub fn to_string(&self) -> (text: String)
        ensures
            text@ == self.description(),
    {
        match self {
            WebDriverBiDiPointerClickResponseError::Envelope { .. } => "WebDriver BiDi pointer-click envelope is invalid".to_owned(),
            WebDriverBiDiPointerClickResponseError::Correlation { .. } => "WebDriver BiDi pointer-click response correlation failed".to_owned(),
            WebDriverBiDiPointerClickResponseError::RemoteProtocolError { .. } => "WebDriver BiDi pointer-click returned a protocol error".to_owned(),
        }
    }

    /// The wrapped envelope or correlation failure, when this error wraps one.
    pub fn source(&self) -> (source: Option<WebDriverBiDiErrorSource<'_>>)
        ensures
            match self {
                WebDriverBiDiPointerClickResponseError::Envelope { source: e } => source == Some(WebDriverBiDiErrorSource::Envelope(e)),
                WebDriverBiDiPointerClickResponseError::Correlation { source: e } => source == Some(WebDriverBiDiErrorSource::Correlation(e)),
                WebDriverBiDiPointerClickResponseError::RemoteProtocolError { .. } => source is None,
            },
    {
        match self {
            WebDriverBiDiPointerClickResponseError::Envelope { source } => Some(WebDriverBiDiErrorSource::Envelope(source)),
            WebDriverBiDiPointerClickResponseError::Correlation { source } => Some(WebDriverBiDiErrorSource::Correlation(source)),
            WebDriverBiDiPointerClickResponseError::RemoteProtocolError { .. } => None,
        }
    }
}

/// Typed protocol acknowledgment of one correlated primary-button pointer click. It proves only a
/// correlated protocol success, not that the click had any effect on the page.
#[derive(Clone, Copy, Debug, PartialEq, Eq)]
pub struct WebDriverBiDiPointerClickResult {
    command_id: u64,
}

impl View for WebDriverBiDiPointerClickResult {
    type V = u64;

    closed spec fn view(&self) -> u64 {
        self.command_id
    }
}

impl WebDriverBiDiPointerClickResult {
    /// Parse one bounded local-end message and consume its exact outstanding command.
    ///
    /// Envelope validation runs before correlation state is touched; a correlatable protocol error
    /// consumes its command and is reported as a remote failure; every other refusal leaves all
    /// outstanding commands in place.
    pub fn parse_and_correlate(
        message: &WebDriverBiDiWebSocketTextMessage,
        correlation: &mut WebDriverBiDiCommandCorrelation,
    ) -> (result: Result<Self, WebDriverBiDiPointerClickResponseError>)
        ensures
            ({
                let (after, outcome) = acknowledgement(message.bytes(), old(correlation)@, (Some(WebDriverBiDiCommandKind::PointerClick), None));
                &&& final(correlation)@ == after
                &&& match outcome {
                    SpecAcknowledgement::Acknowledged(id) => result matches Ok(r) && r@ == id,
                    SpecAcknowledgement::RemoteError(id) => result == Err::<Self, WebDriverBiDiPointerClickResponseError>(
                        WebDriverBiDiPointerClickResponseError::RemoteProtocolError { command_id: id },
                    ),
                    SpecAcknowledgement::EnvelopeRefused(e) => result == Err::<Self, WebDriverBiDiPointerClickResponseError>(
                        WebDriverBiDiPointerClickResponseError::Envelope { source: e },
                    ),
                    SpecAcknowledgement::CorrelationRefused(c) => result == Err::<Self, WebDriverBiDiPointerClickResponseError>(
                        WebDriverBiDiPointerClickResponseError::Correlation { source: c },
                    ),
                }
            }),
    {
        match acknowledge(message, correlation, Some(WebDriverBiDiCommandKind::PointerClick), None) {
            Ok((command_id, WebDriverBiDiCorrelatedResponseOutcome::Success)) => Ok(WebDriverBiDiPointerClickResult { command_id }),
            Ok((command_id, WebDriverBiDiCorrelatedResponseOutcome::Error)) => Err(
                WebDriverBiDiPointerClickResponseError::RemoteProtocolError { command_id },
            ),
            Err(AcknowledgementFailure::Envelope(source)) => Err(WebDriverBiDiPointerClickResponseError::Envelope { source }),
            Err(AcknowledgementFailure::Correlation(source)) => Err(WebDriverBiDiPointerClickResponseError::Correlation { source }),
        }
    }

    /// Return the exact local command identifier consumed by this protocol acknowledgment.
    pub fn command_id(&self) -> (id: u64)
        ensures
            id == self@,
    {
        self.command_id
    }
}

} // verus!
