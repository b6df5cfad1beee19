//! Admission of committed-navigation events through one active, exactly bound subscription.
//!
//! A correlated `session.subscribe` receipt becomes an admission only together with the binding
//! captured from the very command it answers. While active, the admission accepts only events that
//! name the bound external context and commit the expected URL; consuming it yields the matching
//! `session.unsubscribe` command.

use vstd::prelude::*;
use vstd::utf8::*;

use crate::navigation_observation::{
    navigation_observation, WebDriverBiDiNavigationCommittedObservation,
    WebDriverBiDiNavigationCommittedObservationError,
};
use crate::subscription_command::WebDriverBiDiNavigationCommittedSubscriptionBinding;
use crate::subscription_response::WebDriverBiDiNavigationCommittedSubscriptionResult;
use crate::text_message::WebDriverBiDiWebSocketTextMessage;
use crate::unsubscribe_command::{
    WebDriverBiDiNavigationCommittedUnsubscribeCommand, WebDriverBiDiNavigationCommittedUnsubscribeCommandError,
};
use crate::json_envelope::MAX_WEBDRIVER_BIDI_JS_UINT;

verus! {

/// Fail-closed failures while binding a correlated subscription receipt to its command.
#[derive(Clone, Copy, Debug, PartialEq, Eq)]
pub enum WebDriverBiDiNavigationCommittedSubscriptionAdmissionError {
    /// The correlated response belongs to a different local command than the supplied binding.
    CommandIdMismatch {
        /// Exact command identifier carried by the correlated subscription receipt.
        subscription_command_id: u64,
        /// Exact command identifier captured from the intended subscription command.
        binding_command_id: u64,
    },
}

impl WebDriverBiDiNavigationCommittedSubscriptionAdmissionError {
    /// Stable operator-facing description.
    pub open spec fn description(&self) -> Seq<char> {
        match self {
            WebDriverBiDiNavigationCommittedSubscriptionAdmissionError::CommandIdMismatch { .. } => "WebDriver BiDi navigation subscription response does not match its command binding"@,
        }
    }

    /// Stable operator-facing description.
    pub fn to_string(&self) -> (text: String)
        ensures
            text@ == self.description(),
    {
        match self {
            WebDriverBiDiNavigationCommittedSubscriptionAdmissionError::CommandIdMismatch { .. } => "WebDriver BiDi navigation subscription response does not match its command binding".to_owned(),
        }
    }
}

/// One committed-navigation observation admitted through an active subscription.
#[derive(Debug)]
pub struct WebDriverBiDiNavigationCommittedSubscribedObservation {
    observation: WebDriverBiDiNavigationCommittedObservation,
}

impl WebDriverBiDiNavigationCommittedSubscribedObservation {
    /// The admitted observation.
    pub fn observation(&self) -> (observation: &WebDriverBiDiNavigationCommittedObservation)
        ensures
            observation@ == self@,
    {
        &self.observation
    }
}

impl View for WebDriverBiDiNavigationCommittedSubscribedObservation {
    type V = (Option<Seq<u8>>, u64, Seq<u8>);

    closed spec fn view(&self) -> (Option<Seq<u8>>, u64, Seq<u8>) {
        self.observation@
    }
}

/// An active committed-navigation subscription: a correlated receipt bound to the command it
/// answers.
#[derive(Debug)]
pub struct WebDriverBiDiNavigationCommittedSubscriptionAdmission {
    subscription: WebDriverBiDiNavigationCommittedSubscriptionResult,
    binding: WebDriverBiDiNavigationCommittedSubscriptionBinding,
}

impl View for WebDriverBiDiNavigationCommittedSubscriptionAdmission {
    type V = ((u64, Seq<u8>), (u64, Seq<u8>));

    closed spec fn view(&self) -> ((u64, Seq<u8>), (u64, Seq<u8>)) {
        (self.subscription@, self.binding@)
    }
}

impl WebDriverBiDiNavigationCommittedSubscriptionAdmission {
    /// The receipt answers exactly the bound command.
    #[verifier::type_invariant]
    pub closed spec fn bound(&self) -> bool {
        self.subscription@.0 == self.binding@.0
    }

    /// Bind one correlated subscription receipt to the binding of the command it must answer.
    pub fn new(
        subscription: WebDriverBiDiNavigationCommittedSubscriptionResult,
        binding: WebDriverBiDiNavigationCommittedSubscriptionBinding,
    ) -> (result: Result<Self, WebDriverBiDiNavigationCommittedSubscriptionAdmissionError>)
        ensures
            subscription@.0 == binding@.0 ==> (result matches Ok(a) && a@ == (subscription@, binding@)),
            subscription@.0 != binding@.0 ==> result == Err::<Self, WebDriverBiDiNavigationCommittedSubscriptionAdmissionError>(
                WebDriverBiDiNavigationCommittedSubscriptionAdmissionError::CommandIdMismatch {
                    subscription_command_id: subscription@.0,
                    binding_command_id: binding@.0,
                },
            ),
    {
        let subscription_command_id = subscription.command_id();
        let binding_command_id = binding.command_id();
        if subscription_command_id != binding_command_id {
            return Err(WebDriverBiDiNavigationCommittedSubscriptionAdmissionError::CommandIdMismatch {
                subscription_command_id,
                binding_command_id,
            });
        }
        WebDriverBiDiNavigationCommittedSubscriptionAdmission { subscription, binding }.into_ok()
    }

    fn into_ok(self) -> (result: Result<Self, WebDriverBiDiNavigationCommittedSubscriptionAdmissionError>)
        ensures
            result matches Ok(a) && a@ == self@,
    {
        Ok(self)
    }

    /// Accept one committed-navigation event for the bound external context, committing exactly
    /// `expected_url`.
    pub fn admit_event(&self, message: &WebDriverBiDiWebSocketTextMessage, expected_url: &str) -> (result: Result<
        WebDriverBiDiNavigationCommittedSubscribedObservation,
        WebDriverBiDiNavigationCommittedObservationError,
    >)
        ensures
            match navigation_observation(message.bytes(), self@.1.1, encode_utf8(expected_url@)) {
                Ok(info) => result matches Ok(o) && o@ == (info.navigation, info.timestamp, info.url),
                Err(e) => result == Err::<
                    WebDriverBiDiNavigationCommittedSubscribedObservation,
                    WebDriverBiDiNavigationCommittedObservationError,
                >(e),
            },
    {
        let context = self.binding.external_context();
        match WebDriverBiDiNavigationCommittedObservation::parse_and_match(message, context, expected_url) {
            Ok(observation) => Ok(WebDriverBiDiNavigationCommittedSubscribedObservation { observation }),
            Err(e) => Err(e),
        }
    }

    /// End event admission and construct the `session.unsubscribe` command for exactly this
    /// subscription.
    pub fn into_unsubscribe(self, command_id: u64) -> (result: Result<
        WebDriverBiDiNavigationCommittedUnsubscribeCommand,
        WebDriverBiDiNavigationCommittedUnsubscribeCommandError,
    >)
        ensures
            command_id <= MAX_WEBDRIVER_BIDI_JS_UINT ==> (result matches Ok(c) && c@ == (command_id, self@.0.1)),
            command_id > MAX_WEBDRIVER_BIDI_JS_UINT ==> (result matches Err(
                WebDriverBiDiNavigationCommittedUnsubscribeCommandError::CommandIdOutOfRange { .. },
            )),
    {
        WebDriverBiDiNavigationCommittedUnsubscribeCommand::new(command_id, &self.subscription)
    }
}

} // verus!
