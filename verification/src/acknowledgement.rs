//! Admission of command responses whose success result carries nothing beyond the acknowledgment.

use vstd::prelude::*;

use crate::command_correlation::{
    correlate_spec, lemma_correlated_outcome_follows_the_envelope_kind, register_spec, CommandProvenance,
    OutstandingCommands, WebDriverBiDiCommandCorrelation,
    WebDriverBiDiCommandCorrelationError, WebDriverBiDiCommandKind,
    WebDriverBiDiCorrelatedResponseOutcome,
};
use crate::json_envelope::{
    parse_envelope, WebDriverBiDiJsonEnvelope, WebDriverBiDiJsonEnvelopeError, WebDriverBiDiJsonEnvelopeKind,
};
use crate::received_message::WebDriverBiDiConnectionGeneration;
use crate::text_message::WebDriverBiDiWebSocketTextMessage;

verus! {

/// What admitting one acknowledgment response yields.
pub enum SpecAcknowledgement {
    /// The command with this identifier was acknowledged successfully.
    Acknowledged(u64),
    /// The command with this identifier was answered with a protocol error.
    RemoteError(u64),
    /// The envelope was refused before correlation state was touched.
    EnvelopeRefused(WebDriverBiDiJsonEnvelopeError),
    /// Correlation was refused without consuming any command.
    CorrelationRefused(WebDriverBiDiCommandCorrelationError),
}

/// Admission of one acknowledgment document against the outstanding commands, for a consumer
/// expecting `expected`: the outstanding commands afterwards and what admission yields.
pub open spec fn acknowledgement(
    s: Seq<u8>,
    outstanding: OutstandingCommands,
    expected: CommandProvenance,
) -> (OutstandingCommands, SpecAcknowledgement) {
    match parse_envelope(s) {
        Err(e) => (outstanding, SpecAcknowledgement::EnvelopeRefused(e)),
        Ok(envelope) => match correlate_spec(outstanding, envelope, expected) {
            Err(c) => (outstanding, SpecAcknowledgement::CorrelationRefused(c)),
            Ok((after, (id, outcome))) => (
                after,
                match outcome {
                    WebDriverBiDiCorrelatedResponseOutcome::Success => SpecAcknowledgement::Acknowledged(id),
                    WebDriverBiDiCorrelatedResponseOutcome::Error => SpecAcknowledgement::RemoteError(id),
                },
            ),
        },
    }
}

/// A refused acknowledgment.
pub enum AcknowledgementFailure {
    /// The envelope was refused.
    Envelope(WebDriverBiDiJsonEnvelopeError),
    /// Correlation was refused.
    Correlation(WebDriverBiDiCommandCorrelationError),
}

/// How `result` reports `expected`.
pub open spec fn reports(
    result: Result<(u64, WebDriverBiDiCorrelatedResponseOutcome), AcknowledgementFailure>,
    expected: SpecAcknowledgement,
) -> bool {
    match expected {
        SpecAcknowledgement::Acknowledged(id) => result == Ok::<
            (u64, WebDriverBiDiCorrelatedResponseOutcome),
            AcknowledgementFailure,
        >((id, WebDriverBiDiCorrelatedResponseOutcome::Success)),
        SpecAcknowledgement::RemoteError(id) => result == Ok::<
            (u64, WebDriverBiDiCorrelatedResponseOutcome),
            AcknowledgementFailure,
        >((id, WebDriverBiDiCorrelatedResponseOutcome::Error)),
        SpecAcknowledgement::EnvelopeRefused(e) => result == Err::<
            (u64, WebDriverBiDiCorrelatedResponseOutcome),
            AcknowledgementFailure,
        >(AcknowledgementFailure::Envelope(e)),
        SpecAcknowledgement::CorrelationRefused(c) => result == Err::<
            (u64, WebDriverBiDiCorrelatedResponseOutcome),
            AcknowledgementFailure,
        >(AcknowledgementFailure::Correlation(c)),
    }
}

/// Validate the envelope of `message`, then correlate it with a consumer of kind `kind` (the
/// unclassified consumer when `None`), bound to `connection` when one is given.
pub fn acknowledge(
    message: &WebDriverBiDiWebSocketTextMessage,
    correlation: &mut WebDriverBiDiCommandCorrelation,
    kind: Option<WebDriverBiDiCommandKind>,
    connection: Option<WebDriverBiDiConnectionGeneration>,
) -> (result: Result<(u64, WebDriverBiDiCorrelatedResponseOutcome), AcknowledgementFailure>)
    requires
        kind is None ==> connection is None,
    ensures
        ({
            let expected = (kind, match connection {
                Some(g) => Some(g@),
                None => None,
            });
            let (after, outcome) = acknowledgement(message.bytes(), old(correlation)@, expected);
            final(correlation)@ == after && reports(result, outcome)
        }),
{
    let envelope = match WebDriverBiDiJsonEnvelope::parse(message) {
        Ok(envelope) => envelope,
        Err(e) => return Err(AcknowledgementFailure::Envelope(e)),
    };
    let completed = match (kind, connection) {
        (None, _) => correlation.correlate_response(&envelope),
        (Some(k), None) => correlation.correlate_response_for(&envelope, k),
        (Some(k), Some(g)) => correlation.correlate_response_for_connection(&envelope, k, g),
    };
    match completed {
        Ok(response) => Ok((response.command_id(), response.outcome())),
        Err(c) => Err(AcknowledgementFailure::Correlation(c)),
    }
}

/// A refused response (bad envelope or refused correlation) leaves every outstanding command in
/// place; an admitted one, successful or a protocol error, consumes exactly its own command.
pub proof fn lemma_acknowledgement_consumes_at_most_its_command(
    s: Seq<u8>,
    outstanding: OutstandingCommands,
    expected: CommandProvenance,
)
    ensures
        match acknowledgement(s, outstanding, expected).1 {
            SpecAcknowledgement::EnvelopeRefused(_) => acknowledgement(s, outstanding, expected).0 == outstanding,
            SpecAcknowledgement::CorrelationRefused(_) => acknowledgement(s, outstanding, expected).0 == outstanding,
            SpecAcknowledgement::Acknowledged(id) => outstanding.contains_key(id) && acknowledgement(
                s,
                outstanding,
                expected,
            ).0 == outstanding.remove(id),
            SpecAcknowledgement::RemoteError(id) => outstanding.contains_key(id) && acknowledgement(
                s,
                outstanding,
                expected,
            ).0 == outstanding.remove(id),
        },
{
}

/// A command registered for a consumer and then answered with a success envelope naming it is
/// acknowledged to that same consumer, and the registry returns to its state before the
/// registration.
pub proof fn lemma_registered_command_is_acknowledged(
    s: Seq<u8>,
    outstanding: OutstandingCommands,
    command_id: u64,
    provenance: CommandProvenance,
)
    requires
        register_spec(outstanding, command_id, provenance) is Ok,
        parse_envelope(s) matches Ok(e) && e.kind == WebDriverBiDiJsonEnvelopeKind::Success && e.command_id
            == Some(command_id),
    ensures
        acknowledgement(s, register_spec(outstanding, command_id, provenance)->Ok_0, provenance) == (
            outstanding,
            SpecAcknowledgement::Acknowledged(command_id),
        ),
{
    let registered = register_spec(outstanding, command_id, provenance)->Ok_0;
    assert(registered.remove(command_id) =~= outstanding);
}


/// An acknowledgment reports success only for a success response and a remote error only for an
/// error response: an admitted protocol error is never acknowledged as a success.
pub proof fn lemma_acknowledgement_follows_the_envelope_kind(
    s: Seq<u8>,
    outstanding: OutstandingCommands,
    expected: CommandProvenance,
)
    ensures
        acknowledgement(s, outstanding, expected).1 matches SpecAcknowledgement::Acknowledged(_) ==> parse_envelope(
            s,
        ) matches Ok(e) && e.kind == WebDriverBiDiJsonEnvelopeKind::Success,
        acknowledgement(s, outstanding, expected).1 matches SpecAcknowledgement::RemoteError(_) ==> parse_envelope(
            s,
        ) matches Ok(e) && e.kind == WebDriverBiDiJsonEnvelopeKind::Error,
{
    match parse_envelope(s) {
        Ok(envelope) => lemma_correlated_outcome_follows_the_envelope_kind(outstanding, envelope, expected),
        Err(_) => {},
    }
}

} // verus!
