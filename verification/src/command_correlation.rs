//! Bounded local WebDriver BiDi command-response correlation.
//!
//! WebDriver BiDi lets commands complete out of order, so the local end keeps a bounded map from
//! outstanding command identifiers to the provenance they were registered with. A response consumes
//! an entry only when its identifier is outstanding and the consumer's provenance matches exactly.

use std::collections::BTreeMap;

use vstd::prelude::*;

use crate::json_envelope::{
    SpecEnvelope, WebDriverBiDiJsonEnvelope, WebDriverBiDiJsonEnvelopeKind,
    MAX_WEBDRIVER_BIDI_JS_UINT,
};
use crate::received_message::WebDriverBiDiConnectionGeneration;

verus! {

/// Maximum number of local WebDriver BiDi commands retained as outstanding at once.
pub const MAX_WEBDRIVER_BIDI_OUTSTANDING_COMMANDS: usize = 256;

/// Typed WebDriver BiDi command families that require response-family provenance.
#[derive(Clone, Copy, Debug, PartialEq, Eq, Structural)]
pub enum WebDriverBiDiCommandKind {
    /// Fixed `script.callFunction` text-value observation.
    TextValueObservation,
    /// `session.status`.
    SessionStatus,
    /// `session.end`.
    SessionEnd,
    /// Typed pointer click through `input.performActions`.
    PointerClick,
    /// `session.subscribe` for `browsingContext.navigationCommitted`.
    NavigationCommittedSubscription,
    /// Typed text input into one admitted node.
    TypeText,
}

/// Outcome of a response after it has consumed the matching outstanding command identifier.
#[derive(Clone, Copy, Debug, PartialEq, Eq, Structural)]
pub enum WebDriverBiDiCorrelatedResponseOutcome {
    /// The remote end returned a successful command response.
    Success,
    /// The remote end returned a protocol error for the command.
    Error,
}

/// Evidence that one parsed response consumed one outstanding local command.
#[derive(Clone, Copy, Debug, PartialEq, Eq, Structural)]
pub struct WebDriverBiDiCorrelatedResponse {
    command_id: u64,
    outcome: WebDriverBiDiCorrelatedResponseOutcome,
}

impl View for WebDriverBiDiCorrelatedResponse {
    type V = (u64, WebDriverBiDiCorrelatedResponseOutcome);

    closed spec fn view(&self) -> (u64, WebDriverBiDiCorrelatedResponseOutcome) {
        (self.command_id, self.outcome)
    }
}

impl WebDriverBiDiCorrelatedResponse {

    /// Return the local command identifier consumed by this response.
    pub fn command_id(&self) -> (id: u64)
        ensures
            id == self@.0,
    {
        self.command_id
    }

    /// Return whether the correlated response was successful or a protocol error.
    pub fn outcome(&self) -> (outcome: WebDriverBiDiCorrelatedResponseOutcome)
        ensures
            outcome == self@.1,
    {
        self.outcome
    }
}

/// Fail-closed command-correlation failures at the local WebDriver BiDi response boundary.
#[derive(Clone, Copy, Debug, PartialEq, Eq, Structural)]
pub enum WebDriverBiDiCommandCorrelationError {
    /// A caller attempted to register an identifier outside WebDriver BiDi's `js-uint` range.
    CommandIdOutOfRange,
    /// The identifier is already outstanding and cannot become ambiguous.
    CommandAlreadyOutstanding,
    /// The outstanding-command budget has been reached.
    OutstandingCommandLimit,
    /// No currently outstanding command matches the requested or returned identifier.
    CommandNotOutstanding,
    /// The consumer does not match the command provenance registered for this identifier.
    CommandKindMismatch,
    /// An event is not a command response and cannot consume correlation state.
    EventIsNotResponse,
    /// A protocol error with a `null` id cannot be attributed to one outstanding command.
    UncorrelatableErrorResponse,
    /// The outstanding command was registered without the connection provenance the consumer needs.
    CommandConnectionProvenanceMissing {
        /// Identifier left outstanding.
        command_id: u64,
    },
    /// The response arrived on a different connection from the one its command was registered on.
    ResponseConnectionMismatch {
        /// Identifier left outstanding.
        command_id: u64,
    },
}

impl WebDriverBiDiCommandCorrelationError {
    /// Stable operator-facing description.
    pub open spec fn description(&self) -> Seq<char> {
        match self {
            WebDriverBiDiCommandCorrelationError::CommandIdOutOfRange => "WebDriver BiDi command id is outside the js-uint range"@,
            WebDriverBiDiCommandCorrelationError::CommandAlreadyOutstanding => "WebDriver BiDi command id is already outstanding"@,
            WebDriverBiDiCommandCorrelationError::OutstandingCommandLimit => "WebDriver BiDi outstanding-command limit reached"@,
            WebDriverBiDiCommandCorrelationError::CommandNotOutstanding => "WebDriver BiDi command id is not outstanding"@,
            WebDriverBiDiCommandCorrelationError::CommandKindMismatch => "WebDriver BiDi response command kind does not match the outstanding command"@,
            WebDriverBiDiCommandCorrelationError::EventIsNotResponse => "WebDriver BiDi event cannot be correlated as a response"@,
            WebDriverBiDiCommandCorrelationError::UncorrelatableErrorResponse => "WebDriver BiDi error response has no correlatable command id"@,
            WebDriverBiDiCommandCorrelationError::CommandConnectionProvenanceMissing { .. } => "WebDriver BiDi outstanding command lacks connection provenance"@,
            WebDriverBiDiCommandCorrelationError::ResponseConnectionMismatch { .. } => "WebDriver BiDi response arrived on a different connection than its command"@,
        }
    }

    /// Stable operator-facing description that never includes identifiers or message content.
    pub fn to_string(&self) -> (text: String)
        ensures
            text@ == self.description(),
    {
        match self {
            WebDriverBiDiCommandCorrelationError::CommandIdOutOfRange => "WebDriver BiDi command id is outside the js-uint range".to_owned(),
            WebDriverBiDiCommandCorrelationError::CommandAlreadyOutstanding => "WebDriver BiDi command id is already outstanding".to_owned(),
            WebDriverBiDiCommandCorrelationError::OutstandingCommandLimit => "WebDriver BiDi outstanding-command limit reached".to_owned(),
            WebDriverBiDiCommandCorrelationError::CommandNotOutstanding => "WebDriver BiDi command id is not outstanding".to_owned(),
            WebDriverBiDiCommandCorrelationError::CommandKindMismatch => "WebDriver BiDi response command kind does not match the outstanding command".to_owned(),
            WebDriverBiDiCommandCorrelationError::EventIsNotResponse => "WebDriver BiDi event cannot be correlated as a response".to_owned(),
            WebDriverBiDiCommandCorrelationError::UncorrelatableErrorResponse => "WebDriver BiDi error response has no correlatable command id".to_owned(),
            WebDriverBiDiCommandCorrelationError::CommandConnectionProvenanceMissing { .. } => "WebDriver BiDi outstanding command lacks connection provenance".to_owned(),
            WebDriverBiDiCommandCorrelationError::ResponseConnectionMismatch { .. } => "WebDriver BiDi response arrived on a different connection than its command".to_owned(),
        }
    }

    /// No correlation error wraps another error.
    pub fn source(&self) -> (source: Option<&WebDriverBiDiCommandCorrelationError>)
        ensures
            source is None,
    {
        None
    }
}

/// The provenance an outstanding command was registered with: its typed family (`None` for the
/// unclassified compatibility path) and the connection generation it must be answered on, if any.
pub type CommandProvenance = (Option<WebDriverBiDiCommandKind>, Option<u64>);

/// Outstanding commands, by identifier.
pub type OutstandingCommands = Map<u64, CommandProvenance>;

#[derive(Clone, Copy, PartialEq, Eq, Structural)]
struct OutstandingCommand {
    kind: Option<WebDriverBiDiCommandKind>,
    connection: Option<u64>,
}

spec fn provenance_of(entry: OutstandingCommand) -> CommandProvenance {
    (entry.kind, entry.connection)
}

/// Why registering `command_id` in `outstanding` is refused, if it is.
pub open spec fn registration_refusal(outstanding: OutstandingCommands, command_id: u64) -> Option<
    WebDriverBiDiCommandCorrelationError,
> {
    if command_id > MAX_WEBDRIVER_BIDI_JS_UINT {
        Some(WebDriverBiDiCommandCorrelationError::CommandIdOutOfRange)
    } else if outstanding.contains_key(command_id) {
        Some(WebDriverBiDiCommandCorrelationError::CommandAlreadyOutstanding)
    } else if outstanding.len() >= MAX_WEBDRIVER_BIDI_OUTSTANDING_COMMANDS {
        Some(WebDriverBiDiCommandCorrelationError::OutstandingCommandLimit)
    } else {
        None
    }
}

/// Registering `command_id` with `provenance`: the outstanding commands afterwards, or the refusal.
pub open spec fn register_spec(
    outstanding: OutstandingCommands,
    command_id: u64,
    provenance: CommandProvenance,
) -> Result<OutstandingCommands, WebDriverBiDiCommandCorrelationError> {
    match registration_refusal(outstanding, command_id) {
        Some(e) => Err(e),
        None => Ok(outstanding.insert(command_id, provenance)),
    }
}

/// Why a consumer expecting `expected` may not consume the outstanding `command_id`, if it may not.
///
/// A consumer that expects no connection consumes only entries registered without one; a consumer
/// that expects a connection consumes only entries registered on that same connection.
pub open spec fn consumption_refusal(
    outstanding: OutstandingCommands,
    command_id: u64,
    expected: CommandProvenance,
) -> Option<WebDriverBiDiCommandCorrelationError> {
    if !outstanding.contains_key(command_id) {
        Some(WebDriverBiDiCommandCorrelationError::CommandNotOutstanding)
    } else {
        let actual = outstanding[command_id];
        if actual.0 != expected.0 {
            Some(WebDriverBiDiCommandCorrelationError::CommandKindMismatch)
        } else {
            match (actual.1, expected.1) {
                (None, None) => None,
                (Some(_), None) => Some(WebDriverBiDiCommandCorrelationError::CommandKindMismatch),
                (None, Some(_)) => Some(
                    WebDriverBiDiCommandCorrelationError::CommandConnectionProvenanceMissing {
                        command_id,
                    },
                ),
                (Some(a), Some(e)) => if a == e {
                    None
                } else {
                    Some(WebDriverBiDiCommandCorrelationError::ResponseConnectionMismatch { command_id })
                },
            }
        }
    }
}

/// The identifier and outcome a classified envelope reports, or why it cannot be correlated.
pub open spec fn response_target(envelope: SpecEnvelope) -> Result<
    (u64, WebDriverBiDiCorrelatedResponseOutcome),
    WebDriverBiDiCommandCorrelationError,
> {
    match envelope.kind {
        WebDriverBiDiJsonEnvelopeKind::Event => Err(
            WebDriverBiDiCommandCorrelationError::EventIsNotResponse,
        ),
        WebDriverBiDiJsonEnvelopeKind::Error => match envelope.command_id {
            Some(id) => Ok((id, WebDriverBiDiCorrelatedResponseOutcome::Error)),
            None => Err(WebDriverBiDiCommandCorrelationError::UncorrelatableErrorResponse),
        },
        WebDriverBiDiJsonEnvelopeKind::Success => Ok(
            (envelope.command_id.unwrap(), WebDriverBiDiCorrelatedResponseOutcome::Success),
        ),
    }
}

/// Correlating one classified envelope with a consumer expecting `expected`: the outstanding
/// commands afterwards and the evidence, or the refusal (which leaves every command outstanding).
pub open spec fn correlate_spec(
    outstanding: OutstandingCommands,
    envelope: SpecEnvelope,
    expected: CommandProvenance,
) -> Result<
    (OutstandingCommands, (u64, WebDriverBiDiCorrelatedResponseOutcome)),
    WebDriverBiDiCommandCorrelationError,
> {
    match response_target(envelope) {
        Err(e) => Err(e),
        Ok((id, outcome)) => match consumption_refusal(outstanding, id, expected) {
            Some(e) => Err(e),
            None => Ok((outstanding.remove(id), (id, outcome))),
        },
    }
}

/// Bounded local WebDriver BiDi command-response correlation state.
///
/// Typed and unclassified entries cannot consume one another. Events, null-id errors, unknown ids
/// and provenance mismatches leave the outstanding state untouched. Its debug rendering shows only
/// the number of outstanding commands.
pub struct WebDriverBiDiCommandCorrelation {
    outstanding: BTreeMap<u64, OutstandingCommand>,
}

impl View for WebDriverBiDiCommandCorrelation {
    type V = OutstandingCommands;

    closed spec fn view(&self) -> OutstandingCommands {
        self.outstanding@.map_values(|entry: OutstandingCommand| provenance_of(entry))
    }
}

impl WebDriverBiDiCommandCorrelation {
    #[verifier::type_invariant]
    spec fn bounded(&self) -> bool {
        self.outstanding@.len() <= MAX_WEBDRIVER_BIDI_OUTSTANDING_COMMANDS
    }

    /// Create empty correlation state.
    pub fn new() -> (correlation: Self)
        ensures
            correlation@ == Map::<u64, CommandProvenance>::empty(),
            correlation@.dom().finite(),
            correlation@.len() == 0,
    {
        let correlation = WebDriverBiDiCommandCorrelation { outstanding: BTreeMap::new() };
        assert(correlation@ =~= Map::<u64, CommandProvenance>::empty());
        correlation
    }

    /// Return the number of commands currently awaiting a correlatable response.
    pub fn outstanding_count(&self) -> (count: usize)
        ensures
            self@.dom().finite(),
            count == self@.len(),
            count <= MAX_WEBDRIVER_BIDI_OUTSTANDING_COMMANDS,
    {
        proof {
            use_type_invariant(self);
            lemma_view_len(self.outstanding@);
        }
        self.outstanding.len()
    }

    /// Whether `command_id` is currently outstanding.
    pub fn is_outstanding(&self, command_id: u64) -> (outstanding: bool)
        ensures
            outstanding == self@.contains_key(command_id),
    {
        self.outstanding.contains_key(&command_id)
    }

    /// Register one unclassified local command id before its response can be accepted.
    ///
    /// Identifiers are unique only while outstanding; a completed or retired id may be reused.
    pub fn register_command(&mut self, command_id: u64) -> (result: Result<
        (),
        WebDriverBiDiCommandCorrelationError,
    >)
        ensures
            registration_outcome(old(self)@, final(self)@, command_id, (None, None), result),
    {
        self.register(command_id, OutstandingCommand { kind: None, connection: None })
    }

    /// Register one local command id together with its exact typed command family.
    pub fn register_command_for(
        &mut self,
        command_id: u64,
        command_kind: WebDriverBiDiCommandKind,
    ) -> (result: Result<(), WebDriverBiDiCommandCorrelationError>)
        ensures
            registration_outcome(old(self)@, final(self)@, command_id, (Some(command_kind), None), result),
    {
        self.register(command_id, OutstandingCommand { kind: Some(command_kind), connection: None })
    }

    /// Register one typed local command id that must be answered on the connection
    /// `connection_generation`.
    pub fn register_command_for_connection(
        &mut self,
        command_id: u64,
        command_kind: WebDriverBiDiCommandKind,
        connection_generation: WebDriverBiDiConnectionGeneration,
    ) -> (result: Result<(), WebDriverBiDiCommandCorrelationError>)
        ensures
            registration_outcome(
                old(self)@,
                final(self)@,
                command_id,
                (Some(command_kind), Some(connection_generation@)),
                result,
            ),
    {
        let connection = connection_generation.value();
        self.register(command_id, OutstandingCommand { kind: Some(command_kind), connection: Some(connection) })
    }

    /// Explicitly retire one outstanding command without accepting a response for it.
    pub fn retire_command(&mut self, command_id: u64) -> (result: Result<
        (),
        WebDriverBiDiCommandCorrelationError,
    >)
        ensures
            old(self)@.contains_key(command_id) ==> result is Ok && final(self)@ == old(self)@.remove(
                command_id,
            ),
            !old(self)@.contains_key(command_id) ==> result == Err::<
                (),
                WebDriverBiDiCommandCorrelationError,
            >(WebDriverBiDiCommandCorrelationError::CommandNotOutstanding) && final(self)@ == old(
                self,
            )@,
            final(self)@.dom().finite(),
            result is Ok ==> final(self)@.len() == old(self)@.len() - 1,
    {
        proof {
            use_type_invariant(&*self);
            lemma_view_len(self.outstanding@);
        }
        let mut outstanding = BTreeMap::new();
        std::mem::swap(&mut outstanding, &mut self.outstanding);
        let removed = outstanding.remove(&command_id);
        proof {
            lemma_remove_view(old(self).outstanding@, command_id);
            lemma_remove_len(old(self).outstanding@, command_id);
        }
        self.outstanding = outstanding;
        proof {
            lemma_view_len(self.outstanding@);
        }
        match removed {
            Some(_) => Ok(()),
            None => {
                proof {
                    assert(self.outstanding@ =~= old(self).outstanding@);
                }
                Err(WebDriverBiDiCommandCorrelationError::CommandNotOutstanding)
            },
        }
    }

    /// Retire one outstanding command only when it was registered for `command_kind`.
    pub fn retire_command_for(
        &mut self,
        command_id: u64,
        command_kind: WebDriverBiDiCommandKind,
    ) -> (result: Result<(), WebDriverBiDiCommandCorrelationError>)
        ensures
            !old(self)@.contains_key(command_id) ==> result == Err::<
                (),
                WebDriverBiDiCommandCorrelationError,
            >(WebDriverBiDiCommandCorrelationError::CommandNotOutstanding) && final(self)@ == old(
                self,
            )@,
            old(self)@.contains_key(command_id) && old(self)@[command_id].0 != Some(command_kind)
                ==> result == Err::<(), WebDriverBiDiCommandCorrelationError>(
                WebDriverBiDiCommandCorrelationError::CommandKindMismatch,
            ) && final(self)@ == old(self)@,
            old(self)@.contains_key(command_id) && old(self)@[command_id].0 == Some(command_kind)
                ==> result is Ok && final(self)@ == old(self)@.remove(command_id),
            final(self)@.dom().finite(),
            result is Ok ==> final(self)@.len() == old(self)@.len() - 1,
    {
        proof {
            use_type_invariant(&*self);
            lemma_view_len(self.outstanding@);
        }
        let matches = match self.outstanding.get(&command_id) {
            Some(entry) => {
                match entry.kind {
                    Some(kind) => if kind == command_kind {
                        Ok(())
                    } else {
                        Err(WebDriverBiDiCommandCorrelationError::CommandKindMismatch)
                    },
                    None => Err(WebDriverBiDiCommandCorrelationError::CommandKindMismatch),
                }
            },
            None => Err(WebDriverBiDiCommandCorrelationError::CommandNotOutstanding),
        };
        match matches {
            Ok(()) => self.retire_command(command_id),
            Err(e) => Err(e),
        }
    }

    /// Correlate one parsed envelope with an unclassified outstanding command.
    pub fn correlate_response(&mut self, envelope: &WebDriverBiDiJsonEnvelope) -> (result: Result<
        WebDriverBiDiCorrelatedResponse,
        WebDriverBiDiCommandCorrelationError,
    >)
        ensures
            correlation_outcome(old(self)@, final(self)@, envelope@, (None, None), result),
    {
        self.correlate_response_kind(envelope, OutstandingCommand { kind: None, connection: None })
    }

    /// Correlate one parsed envelope with the exact typed outstanding command family.
    pub fn correlate_response_for(
        &mut self,
        envelope: &WebDriverBiDiJsonEnvelope,
        expected_kind: WebDriverBiDiCommandKind,
    ) -> (result: Result<WebDriverBiDiCorrelatedResponse, WebDriverBiDiCommandCorrelationError>)
        ensures
            correlation_outcome(old(self)@, final(self)@, envelope@, (Some(expected_kind), None), result),
    {
        self.correlate_response_kind(envelope, OutstandingCommand { kind: Some(expected_kind), connection: None })
    }

    /// Correlate one parsed envelope, received on the connection `connection_generation`, with the
    /// exact typed outstanding command family registered on that same connection.
    pub fn correlate_response_for_connection(
        &mut self,
        envelope: &WebDriverBiDiJsonEnvelope,
        expected_kind: WebDriverBiDiCommandKind,
        connection_generation: WebDriverBiDiConnectionGeneration,
    ) -> (result: Result<WebDriverBiDiCorrelatedResponse, WebDriverBiDiCommandCorrelationError>)
        ensures
            correlation_outcome(
                old(self)@,
                final(self)@,
                envelope@,
                (Some(expected_kind), Some(connection_generation@)),
                result,
            ),
    {
        let connection = connection_generation.value();
        self.correlate_response_kind(envelope, OutstandingCommand { kind: Some(expected_kind), connection: Some(connection) })
    }

    fn register(&mut self, command_id: u64, entry: OutstandingCommand) -> (result: Result<
        (),
        WebDriverBiDiCommandCorrelationError,
    >)
        ensures
            registration_outcome(old(self)@, final(self)@, command_id, provenance_of(entry), result),
    {
        proof {
            use_type_invariant(&*self);
            lemma_view_len(self.outstanding@);
            lemma_view_contains(self.outstanding@, command_id);
        }
        if command_id > MAX_WEBDRIVER_BIDI_JS_UINT {
            return Err(WebDriverBiDiCommandCorrelationError::CommandIdOutOfRange);
        }
        if self.outstanding.contains_key(&command_id) {
            return Err(WebDriverBiDiCommandCorrelationError::CommandAlreadyOutstanding);
        }
        if self.outstanding.len() >= MAX_WEBDRIVER_BIDI_OUTSTANDING_COMMANDS {
            return Err(WebDriverBiDiCommandCorrelationError::OutstandingCommandLimit);
        }
        let mut outstanding = BTreeMap::new();
        std::mem::swap(&mut outstanding, &mut self.outstanding);
        let _previous = outstanding.insert(command_id, entry);
        self.outstanding = outstanding;
        proof {
            assert(self@ =~= old(self)@.insert(command_id, provenance_of(entry)));
            lemma_view_len(self.outstanding@);
        }
        Ok(())
    }

    fn correlate_response_kind(
        &mut self,
        envelope: &WebDriverBiDiJsonEnvelope,
        expected: OutstandingCommand,
    ) -> (result: Result<WebDriverBiDiCorrelatedResponse, WebDriverBiDiCommandCorrelationError>)
        ensures
            correlation_outcome(old(self)@, final(self)@, envelope@, provenance_of(expected), result),
    {
        proof {
            use_type_invariant(envelope);
            lemma_view_len(self.outstanding@);
        }
        match envelope.kind() {
            WebDriverBiDiJsonEnvelopeKind::Event => Err(
                WebDriverBiDiCommandCorrelationError::EventIsNotResponse,
            ),
            WebDriverBiDiJsonEnvelopeKind::Error => {
                match envelope.command_id() {
                    Some(command_id) => self.complete(
                        command_id,
                        expected,
                        WebDriverBiDiCorrelatedResponseOutcome::Error,
                    ),
                    None => Err(WebDriverBiDiCommandCorrelationError::UncorrelatableErrorResponse),
                }
            },
            WebDriverBiDiJsonEnvelopeKind::Success => {
                let command_id = match envelope.command_id() {
                    Some(id) => id,
                    None => 0,
                };
                self.complete(command_id, expected, WebDriverBiDiCorrelatedResponseOutcome::Success)
            },
        }
    }

    fn complete(
        &mut self,
        command_id: u64,
        expected: OutstandingCommand,
        outcome: WebDriverBiDiCorrelatedResponseOutcome,
    ) -> (result: Result<WebDriverBiDiCorrelatedResponse, WebDriverBiDiCommandCorrelationError>)
        ensures
            match consumption_refusal(old(self)@, command_id, provenance_of(expected)) {
                Some(e) => result == Err::<
                    WebDriverBiDiCorrelatedResponse,
                    WebDriverBiDiCommandCorrelationError,
                >(e) && final(self)@ == old(self)@,
                None => result matches Ok(r) && r@ == (command_id, outcome) && final(self)@
                    == old(self)@.remove(command_id),
            },
            old(self)@.dom().finite(),
            final(self)@.dom().finite(),
    {
        proof {
            use_type_invariant(&*self);
            lemma_view_len(self.outstanding@);
            lemma_view_contains(self.outstanding@, command_id);
        }
        let actual = match self.outstanding.get(&command_id) {
            Some(entry) => *entry,
            None => return Err(WebDriverBiDiCommandCorrelationError::CommandNotOutstanding),
        };
        if actual.kind != expected.kind {
            return Err(WebDriverBiDiCommandCorrelationError::CommandKindMismatch);
        }
        match (actual.connection, expected.connection) {
            (None, None) => {},
            (Some(_), None) => return Err(WebDriverBiDiCommandCorrelationError::CommandKindMismatch),
            (None, Some(_)) => return Err(
                WebDriverBiDiCommandCorrelationError::CommandConnectionProvenanceMissing { command_id },
            ),
            (Some(a), Some(e)) => if a != e {
                return Err(
                    WebDriverBiDiCommandCorrelationError::ResponseConnectionMismatch { command_id },
                );
            },
        }
        let mut outstanding = BTreeMap::new();
        std::mem::swap(&mut outstanding, &mut self.outstanding);
        let _removed = outstanding.remove(&command_id);
        proof {
            lemma_remove_view(old(self).outstanding@, command_id);
            lemma_remove_len(old(self).outstanding@, command_id);
        }
        self.outstanding = outstanding;
        proof {
            lemma_view_len(self.outstanding@);
        }
        Ok(WebDriverBiDiCorrelatedResponse { command_id, outcome })
    }
}

/// Registration either succeeds with `command_id` added under `provenance`, or fails with the
/// exact refusal and leaves every command as it was.
pub open spec fn registration_outcome(
    before: OutstandingCommands,
    after: OutstandingCommands,
    command_id: u64,
    provenance: CommandProvenance,
    result: Result<(), WebDriverBiDiCommandCorrelationError>,
) -> bool {
    &&& before.dom().finite()
    &&& after.dom().finite()
    &&& match register_spec(before, command_id, provenance) {
        Ok(m) => result is Ok && after == m,
        Err(e) => result == Err::<(), WebDriverBiDiCommandCorrelationError>(e) && after == before,
    }
    &&& result is Ok ==> after.len() == before.len() + 1
    &&& result is Err ==> after.len() == before.len()
}

/// Correlation either consumes exactly the answered command, or fails with the exact refusal and
/// leaves every command outstanding.
pub open spec fn correlation_outcome(
    before: OutstandingCommands,
    after: OutstandingCommands,
    envelope: SpecEnvelope,
    expected: CommandProvenance,
    result: Result<WebDriverBiDiCorrelatedResponse, WebDriverBiDiCommandCorrelationError>,
) -> bool {
    &&& before.dom().finite()
    &&& after.dom().finite()
    &&& match correlate_spec(before, envelope, expected) {
        Ok((m, response)) => result matches Ok(r) && r@ == response && after == m,
        Err(e) => result == Err::<
            WebDriverBiDiCorrelatedResponse,
            WebDriverBiDiCommandCorrelationError,
        >(e) && after == before,
    }
    &&& result is Ok ==> after.len() == before.len() - 1
    &&& result is Err ==> after.len() == before.len()
}

/// A command registered with some provenance and then answered (successfully or with a protocol
/// error) to a consumer expecting that same provenance is consumed exactly once: the outstanding
/// commands return to what they were before the registration, and the evidence names the command.
pub proof fn lemma_register_then_correlate_restores(
    outstanding: OutstandingCommands,
    command_id: u64,
    provenance: CommandProvenance,
    envelope: SpecEnvelope,
)
    requires
        register_spec(outstanding, command_id, provenance) is Ok,
        response_target(envelope) matches Ok((id, _)) && id == command_id,
    ensures
        correlate_spec(register_spec(outstanding, command_id, provenance)->Ok_0, envelope, provenance)
            matches Ok((after, evidence)) && after == outstanding && evidence == response_target(
            envelope,
        )->Ok_0,
{
    let registered = register_spec(outstanding, command_id, provenance)->Ok_0;
    assert(registered.remove(command_id) =~= outstanding);
}

/// A command registered for a typed family raises the number of outstanding commands by one. Its
/// response is then refused to the unclassified consumer, which leaves that number unchanged, and
/// is consumed by the consumer of the same family, which lowers it by one and names the command.
pub proof fn lemma_typed_command_is_consumed_only_by_its_family(
    outstanding: OutstandingCommands,
    command_id: u64,
    kind: WebDriverBiDiCommandKind,
    envelope: SpecEnvelope,
)
    requires
        outstanding.dom().finite(),
        register_spec(outstanding, command_id, (Some(kind), None)) is Ok,
        response_target(envelope) matches Ok((id, _)) && id == command_id,
    ensures
        ({
            let registered = register_spec(outstanding, command_id, (Some(kind), None))->Ok_0;
            &&& registered.len() == outstanding.len() + 1
            &&& correlate_spec(registered, envelope, (None, None)) == Err::<
                (OutstandingCommands, (u64, WebDriverBiDiCorrelatedResponseOutcome)),
                WebDriverBiDiCommandCorrelationError,
            >(WebDriverBiDiCommandCorrelationError::CommandKindMismatch)
            &&& correlate_spec(registered, envelope, (Some(kind), None)) matches Ok((after, evidence))
                && after.len() == registered.len() - 1 && after == outstanding && evidence.0
                == command_id
        }),
{
    let registered = register_spec(outstanding, command_id, (Some(kind), None))->Ok_0;
    assert(registered.remove(command_id) =~= outstanding);
}

/// Correlation reports what the envelope says: the outcome is `Error` exactly when the envelope is
/// an error response (so a protocol error is never reported as a success, nor a success as an
/// error), and the identifier is the one the envelope carries.
pub proof fn lemma_correlated_outcome_follows_the_envelope_kind(
    outstanding: OutstandingCommands,
    envelope: SpecEnvelope,
    expected: CommandProvenance,
)
    ensures
        response_target(envelope) matches Ok((id, outcome)) ==> {
            &&& (outcome == WebDriverBiDiCorrelatedResponseOutcome::Error <==> envelope.kind
                == WebDriverBiDiJsonEnvelopeKind::Error)
            &&& (outcome == WebDriverBiDiCorrelatedResponseOutcome::Success <==> envelope.kind
                == WebDriverBiDiJsonEnvelopeKind::Success)
            &&& (envelope.command_id matches Some(c) ==> c == id)
        },
        correlate_spec(outstanding, envelope, expected) matches Ok((_, (id, outcome))) ==> {
            &&& (outcome == WebDriverBiDiCorrelatedResponseOutcome::Error <==> envelope.kind
                == WebDriverBiDiJsonEnvelopeKind::Error)
            &&& (envelope.command_id matches Some(c) ==> c == id)
        },
        envelope.kind == WebDriverBiDiJsonEnvelopeKind::Event ==> correlate_spec(outstanding, envelope, expected)
            is Err,
{
}

/// Typed and unclassified provenance never consume one another: an identifier registered for a
/// typed family is refused to the unclassified consumer, and an unclassified identifier is refused
/// to every typed consumer.
pub proof fn lemma_typed_and_unclassified_never_cross(
    outstanding: OutstandingCommands,
    command_id: u64,
    kind: WebDriverBiDiCommandKind,
    connection: Option<u64>,
)
    requires
        outstanding.contains_key(command_id),
    ensures
        outstanding[command_id].0 is Some ==> consumption_refusal(outstanding, command_id, (None, None))
            == Some(WebDriverBiDiCommandCorrelationError::CommandKindMismatch),
        outstanding[command_id].0 is None ==> consumption_refusal(
            outstanding,
            command_id,
            (Some(kind), connection),
        ) == Some(WebDriverBiDiCommandCorrelationError::CommandKindMismatch),
{
}

/// A response read on one connection never consumes a command registered on another connection,
/// nor a command registered with no connection at all.
pub proof fn lemma_connection_bound_commands_need_their_connection(
    outstanding: OutstandingCommands,
    command_id: u64,
    kind: WebDriverBiDiCommandKind,
    generation: u64,
)
    requires
        outstanding.contains_key(command_id),
        outstanding[command_id].0 == Some(kind),
        outstanding[command_id].1 != Some(generation),
    ensures
        consumption_refusal(outstanding, command_id, (Some(kind), Some(generation))) is Some,
{
}

/// Every refused correlation leaves all outstanding commands in place; a granted one removes only
/// the answered identifier.
pub proof fn lemma_correlation_touches_only_the_answered_command(
    outstanding: OutstandingCommands,
    envelope: SpecEnvelope,
    expected: CommandProvenance,
    other: u64,
)
    requires
        correlate_spec(outstanding, envelope, expected) is Ok,
        response_target(envelope) matches Ok((id, _)) && id != other,
    ensures
        correlate_spec(outstanding, envelope, expected)->Ok_0.0.contains_key(other)
            == outstanding.contains_key(other),
        outstanding.contains_key(other) ==> correlate_spec(outstanding, envelope, expected)->Ok_0.0[other]
            == outstanding[other],
{
}

/// Registration never lets the number of outstanding commands exceed the budget.
pub proof fn lemma_registration_respects_budget(
    outstanding: OutstandingCommands,
    command_id: u64,
    provenance: CommandProvenance,
)
    requires
        outstanding.dom().finite(),
        outstanding.len() <= MAX_WEBDRIVER_BIDI_OUTSTANDING_COMMANDS,
    ensures
        register_spec(outstanding, command_id, provenance) matches Ok(after) ==> after.len()
            <= MAX_WEBDRIVER_BIDI_OUTSTANDING_COMMANDS && after.len() == outstanding.len() + 1,
{
}

proof fn lemma_view_len(m: Map<u64, OutstandingCommand>)
    requires
        m.dom().finite(),
    ensures
        m.map_values(|entry: OutstandingCommand| provenance_of(entry)).dom().finite(),
        m.map_values(|entry: OutstandingCommand| provenance_of(entry)).len() == m.len(),
{
    let v = m.map_values(|entry: OutstandingCommand| provenance_of(entry));
    assert(v.dom() =~= m.dom());
}

proof fn lemma_view_contains(m: Map<u64, OutstandingCommand>, k: u64)
    ensures
        m.map_values(|entry: OutstandingCommand| provenance_of(entry)).contains_key(k)
            <==> m.contains_key(k),
        m.contains_key(k) ==> m.map_values(|entry: OutstandingCommand| provenance_of(entry))[k]
            == provenance_of(m[k]),
{
}

proof fn lemma_remove_view(m: Map<u64, OutstandingCommand>, k: u64)
    ensures
        m.remove(k).map_values(|entry: OutstandingCommand| provenance_of(entry)) == m.map_values(
            |entry: OutstandingCommand| provenance_of(entry),
        ).remove(k),
{
    assert(m.remove(k).map_values(|entry: OutstandingCommand| provenance_of(entry)) =~= m.map_values(
        |entry: OutstandingCommand| provenance_of(entry),
    ).remove(k));
}

proof fn lemma_remove_len(m: Map<u64, OutstandingCommand>, k: u64)
    requires
        m.dom().finite(),
    ensures
        m.remove(k).len() <= m.len(),
{
    if m.contains_key(k) {
        assert(m.remove(k).dom() =~= m.dom().remove(k));
    } else {
        assert(m.remove(k) =~= m);
    }
}

} // verus!
