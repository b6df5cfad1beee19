//! A correlated `session.end` acknowledgment kept apart from operational teardown evidence.

use vstd::prelude::*;

use crate::received_message::WebDriverBiDiConnectionGeneration;
use crate::session_end_response::WebDriverBiDiSessionEndResult;

verus! {

/// How the peer ended one verified WebSocket transport.
#[derive(Clone, Copy, Debug, PartialEq, Eq, Structural)]
pub enum WebDriverBiDiWebSocketTransportClosureKind {
    /// The peer sent a Close frame.
    PeerClose,
    /// The peer closed the stream cleanly without a Close frame.
    CleanEof,
}

/// Typed evidence, supplied by the transport owner, that the transport of one connection
/// generation stopped.
#[derive(Clone, Copy, Debug, PartialEq, Eq, Structural)]
pub struct WebDriverBiDiWebSocketTransportClosureObservation {
    kind: WebDriverBiDiWebSocketTransportClosureKind,
    connection_generation: WebDriverBiDiConnectionGeneration,
}

impl View for WebDriverBiDiWebSocketTransportClosureObservation {
    type V = (WebDriverBiDiWebSocketTransportClosureKind, u64);

    closed spec fn view(&self) -> (WebDriverBiDiWebSocketTransportClosureKind, u64) {
        (self.kind, self.connection_generation@)
    }
}

impl WebDriverBiDiWebSocketTransportClosureObservation {
    /// Record that the transport of `connection_generation` stopped in the manner `kind`.
    pub fn new(
        kind: WebDriverBiDiWebSocketTransportClosureKind,
        connection_generation: WebDriverBiDiConnectionGeneration,
    ) -> (observation: Self)
        ensures
            observation@ == (kind, connection_generation@),
    {
        WebDriverBiDiWebSocketTransportClosureObservation { kind, connection_generation }
    }

    /// How the transport stopped.
    pub fn kind(&self) -> (kind: WebDriverBiDiWebSocketTransportClosureKind)
        ensures
            kind == self@.0,
    {
        self.kind
    }

    /// The connection generation whose transport stopped.
    pub fn connection_generation(&self) -> (generation: WebDriverBiDiConnectionGeneration)
        ensures
            generation@ == self@.1,
    {
        self.connection_generation
    }
}

/// Fail-closed operational disposition derived from teardown observations.
#[derive(Clone, Copy, Debug, PartialEq, Eq, Structural)]
pub enum WebDriverBiDiSessionTeardownDisposition {
    /// Operational teardown is not yet proven by typed observations from every owning boundary.
    OperationalTeardownPending,
}

/// Operational observations retained after a correlated `session.end` acknowledgment. Only
/// transport closure can be observed; browser-process exit and profile removal have no evidence
/// here.
#[derive(Clone, Copy, Debug, PartialEq, Eq)]
pub struct WebDriverBiDiSessionTeardownObservations {
    transport_closure_observation: Option<WebDriverBiDiWebSocketTransportClosureObservation>,
}

impl WebDriverBiDiSessionTeardownObservations {
    /// Retain the typed transport-closure observation, if one was supplied.
    pub fn new(transport_closure_observation: Option<WebDriverBiDiWebSocketTransportClosureObservation>) -> (observations: Self)
        ensures
            observations.closure() == transport_closure_observation,
    {
        WebDriverBiDiSessionTeardownObservations { transport_closure_observation }
    }

    /// The retained transport-closure observation.
    pub closed spec fn closure(&self) -> Option<WebDriverBiDiWebSocketTransportClosureObservation> {
        self.transport_closure_observation
    }

    /// Whether typed closure evidence for the session transport was supplied.
    pub fn transport_closed_observed(&self) -> (observed: bool)
        ensures
            observed == self.closure() is Some,
    {
        self.transport_closure_observation.is_some()
    }

    /// Borrow the typed transport-closure observation when one was supplied.
    pub fn transport_closure_observation(&self) -> (observation: Option<&WebDriverBiDiWebSocketTransportClosureObservation>)
        ensures
            match self.closure() {
                Some(o) => observation == Some(&o),
                None => observation is None,
            },
    {
        match &self.transport_closure_observation {
            Some(o) => Some(o),
            None => None,
        }
    }
}

/// One correlated `session.end` acknowledgment bound to separately supplied operational
/// observations. A protocol acknowledgment alone is never operational completion.
#[derive(Clone, Copy, Debug, PartialEq, Eq)]
pub struct WebDriverBiDiSessionTeardownAssessment {
    protocol_ack: WebDriverBiDiSessionEndResult,
    observations: WebDriverBiDiSessionTeardownObservations,
}

impl WebDriverBiDiSessionTeardownAssessment {
    /// Bind one correlated protocol acknowledgment to the supplied operational observations.
    pub fn from_protocol_ack(
        protocol_ack: WebDriverBiDiSessionEndResult,
        observations: WebDriverBiDiSessionTeardownObservations,
    ) -> (assessment: Self)
        ensures
            assessment.ack() == protocol_ack@,
            assessment.observed() == observations,
    {
        WebDriverBiDiSessionTeardownAssessment { protocol_ack, observations }
    }

    /// The bound acknowledgment: command identifier and connection generation.
    pub closed spec fn ack(&self) -> (u64, u64) {
        self.protocol_ack@
    }

    /// The bound observations.
    pub closed spec fn observed(&self) -> WebDriverBiDiSessionTeardownObservations {
        self.observations
    }

    /// Return the command identifier proven by the correlated protocol acknowledgment.
    pub fn command_id(&self) -> (id: u64)
        ensures
            id == self.ack().0,
    {
        self.protocol_ack.command_id()
    }

    /// Borrow the operational observations bound to this assessment.
    pub fn observations(&self) -> (observations: &WebDriverBiDiSessionTeardownObservations)
        ensures
            *observations == self.observed(),
    {
        &self.observations
    }

    /// Whether typed evidence proves every operational teardown boundary: never, since process
    /// exit and profile removal have no evidence here.
    pub fn is_operationally_complete(&self) -> (complete: bool)
        ensures
            !complete,
    {
        false
    }

    /// The fail-closed disposition for the supplied observations.
    pub fn disposition(&self) -> (disposition: WebDriverBiDiSessionTeardownDisposition)
        ensures
            disposition == WebDriverBiDiSessionTeardownDisposition::OperationalTeardownPending,
    {
        WebDriverBiDiSessionTeardownDisposition::OperationalTeardownPending
    }
}

} // verus!
