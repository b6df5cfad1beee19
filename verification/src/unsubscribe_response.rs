//! Typed admission of one correlated `session.unsubscribe` response.

use vstd::prelude::*;

use crate::acknowledgement::{acknowledge, acknowledgement, AcknowledgementFailure, SpecAcknowledgement};
use crate::command_correlation::{
    WebDriverBiDiCommandCorrelation, WebDriverBiDiCommandCorrelationError, WebDriverBiDiCommandKind,
    WebDriverBiDiCorrelatedResponseOutcome,
};
use crate::error_source::WebDriverBiDiErrorSource;
use crate::json_envelope::WebDriverBiDiJsonEnvelopeError;
use crate::text_message::WebDriverBiDiWebSocketTextMessage;

verus! {

/// Fail-closed failures while admitting one typed WebDriver BiDi session.unsubscribe response.
#[derive(Clone, Debug, PartialEq, Eq)]
pub enum WebDriverBiDiNavigationCommittedUnsubscribeResponseError {
    /// Common local-end JSON envelope validation failed before correlation state was touched.
    Envelope {
        /// Exact common-envelope validation failure.
        source: WebDriverBiDiJsonEnvelopeError,
    },
    /// Exact command-response correlation failed without consuming unrelated state.
    Correlation {
        /// Exact typed correlation failure.
        source: WebDriverBiDiCommandCorrelationError,
    },
    /// The remote end returned a correlatable WebDriver BiDi protocol error for this command.
    RemoteProtocolError {
        /// Exact local command identifier consumed by the protocol-error response.
        command_id: u64,
    },
}

impl WebDriverBiDiNavigationCommittedUnsubscribeResponseError {
    /// Stable operator-facing description that never includes message content.
    pub open spec fn description(&self) -> Seq<char> {
        match self {
            WebDriverBiDiNavigationCommittedUnsubscribeResponseError::Envelope { .. } => "WebDriver BiDi session.unsubscribe envelope is invalid"@,
            WebDriverBiDiNavigationCommittedUnsubscribeResponseError::Correlation { .. } => "WebDriver BiDi session.unsubscribe response correlation failed"@,
            WebDriverBiDiNavigationCommittedUnsubscribeResponseError::RemoteProtocolError { .. } => "WebDriver BiDi session.unsubscribe returned a protocol error"@,
        }
    }

    /// Stable operator-facing description that never includes message content.
    pub fn to_string(&self) -> (text: String)
        ensures
            text@ == self.description(),
    {
        match self {
            WebDriverBiDiNavigationCommittedUnsubscribeResponseError::Envelope { .. } => "WebDriver BiDi session.unsubscribe envelope is invalid".to_owned(),
            WebDriverBiDiNavigationCommittedUnsubscribeResponseError::Correlation { .. } => "WebDriver BiDi session.unsubscribe response correlation failed".to_owned(),
            WebDriverBiDiNavigationCommittedUnsubscribeResponseError::RemoteProtocolError { .. } => "WebDriver BiDi session.unsubscribe returned a protocol error".to_owned(),
        }
    }

    /// The wrapped envelope or correlation failure, when this error wraps one.
    pub fn source(&self) -> (source: Option<WebDriverBiDiErrorSource<'_>>)
        ensures
            match self {
                WebDriverBiDiNavigationCommittedUnsubscribeResponseError::Envelope { source: e } => source == Some(WebDriverBiDiErrorSource::Envelope(e)),
                WebDriverBiDiNavigationCommittedUnsubscribeResponseError::Correlation { source: e } => source == Some(WebDriverBiDiErrorSource::Correlation(e)),
                WebDriverBiDiNavigationCommittedUnsubscribeResponseError::RemoteProtocolError { .. } => source is None,
            },
    {
        match self {
            WebDriverBiDiNavigationCommittedUnsubscribeResponseError::Envelope { source } => Some(WebDriverBiDiErrorSource::Envelope(source)),
            WebDriverBiDiNavigationCommittedUnsubscribeResponseError::Correlation { source } => Some(WebDriverBiDiErrorSource::Correlation(source)),
            WebDriverBiDiNavigationCommittedUnsubscribeResponseError::RemoteProtocolError { .. } => None,
        }
    }
}

/// Typed protocol acknowledgment of one correlated `session.unsubscribe` command. It proves only a
/// correlated protocol success.
#[derive(Clone, Copy, Debug, PartialEq, Eq)]
pub struct WebDriverBiDiNavigationCommittedUnsubscribeResult {
    command_id: u64,
}

impl View for WebDriverBiDiNavigationCommittedUnsubscribeResult {
    type V = u64;

    closed spec fn view(&self) -> u64 {
        self.command_id
    }
}

impl WebDriverBiDiNavigationCommittedUnsubscribeResult {
    /// Parse one bounded local-end message and consume its exact outstanding command.
    ///
    /// Envelope validation runs before correlation state is touched; a correlatable protocol error
    /// consumes its command and is reported as a remote failure; every other refusal leaves all
    /// outstanding commands in place.
    pub fn parse_and_correlate(
        message: &WebDriverBiDiWebSocketTextMessage,
        correlation: &mut WebDriverBiDiCommandCorrelation,
    ) -> (result: Result<Self, WebDriverBiDiNavigationCommittedUnsubscribeResponseError>)
        ensures
            ({
                let (after, outcome) = acknowledgement(message.bytes(), old(correlation)@, (None::<WebDriverBiDiCommandKind>, None));
                &&& final(correlation)@ == after
                &&& match outcome {
                    SpecAcknowledgement::Acknowledged(id) => result matches Ok(r) && r@ == id,
                    SpecAcknowledgement::RemoteError(id) => result == Err::<Self, WebDriverBiDiNavigationCommittedUnsubscribeResponseError>(
                        WebDriverBiDiNavigationCommittedUnsubscribeResponseError::RemoteProtocolError { command_id: id },
                    ),
                    SpecAcknowledgement::EnvelopeRefused(e) => result == Err::<Self, WebDriverBiDiNavigationCommittedUnsubscribeResponseError>(
                        WebDriverBiDiNavigationCommittedUnsubscribeResponseError::Envelope { source: e },
                    ),
                    SpecAcknowledgement::CorrelationRefused(c) => result == Err::<Self, WebDriverBiDiNavigationCommittedUnsubscribeResponseError>(
                        WebDriverBiDiNavigationCommittedUnsubscribeResponseError::Correlation { source: c },
                    ),
                }
            }),
    {
        match acknowledge(message, correlation, None, None) {
            Ok((command_id, WebDriverBiDiCorrelatedResponseOutcome::Success)) => Ok(WebDriverBiDiNavigationCommittedUnsubscribeResult { command_id }),
            Ok((command_id, WebDriverBiDiCorrelatedResponseOutcome::Error)) => Err(
                WebDriverBiDiNavigationCommittedUnsubscribeResponseError::RemoteProtocolError { command_id },
            ),
            Err(AcknowledgementFailure::Envelope(source)) => Err(WebDriverBiDiNavigationCommittedUnsubscribeResponseError::Envelope { source }),
            Err(AcknowledgementFailure::Correlation(source)) => Err(WebDriverBiDiNavigationCommittedUnsubscribeResponseError::Correlation { source }),
        }
    }

    /// Return the exact local command identifier consumed by this protocol acknowledgment.
    pub fn command_id(&self) -> (id: u64)
        ensures
            id == self@,
    {
        self.command_id
    }
}

} // verus!
