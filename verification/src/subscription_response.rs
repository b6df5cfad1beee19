//! Typed admission of one correlated `session.subscribe` response for committed navigations.

use vstd::prelude::*;
use vstd::utf8::*;

use crate::command_correlation::{
    correlate_spec, OutstandingCommands, WebDriverBiDiCommandCorrelation,
    WebDriverBiDiCommandCorrelationError,
};
use crate::error_source::WebDriverBiDiErrorSource;
use crate::json_envelope::{
    lit, parse_envelope, WebDriverBiDiJsonEnvelope, WebDriverBiDiJsonEnvelopeError,
    WebDriverBiDiJsonEnvelopeKind,
};
use crate::json_text::{ascii_literal, byte_at, bytes_equal, ws_end, CLOSE_BRACE, OPEN_BRACE};
use crate::projection_cursor::{
    json_text_at, lenient_value, member_head, member_separator, MemberSeparator, ProjectionCursor,
};
use crate::text_message::{str_from_utf8, string_from_utf8, WebDriverBiDiWebSocketTextMessage};

verus! {

/// Maximum decoded UTF-8 bytes retained from a `session.Subscription` identifier.
pub const MAX_WEBDRIVER_BIDI_SUBSCRIPTION_IDENTIFIER_BYTES: usize = 4_096;

/// Fail-closed failures while admitting one typed WebDriver BiDi `session.subscribe` response.
#[derive(Clone, Debug, PartialEq, Eq)]
pub enum WebDriverBiDiNavigationCommittedSubscriptionResponseError {
    /// Common local-end JSON envelope validation failed.
    Envelope {
        /// Exact common-envelope validation failure.
        source: WebDriverBiDiJsonEnvelopeError,
    },
    /// The successful result object omits the required `subscription` member.
    MissingSubscription,
    /// The successful result object's `subscription` member is not JSON text.
    InvalidSubscription,
    /// The successful result repeats the `subscription` member and is ambiguous.
    DuplicateSubscription,
    /// The decoded subscription identifier exceeds the local retention bound.
    SubscriptionTooLarge {
        /// Maximum decoded identifier length admitted in bytes.
        maximum_bytes: usize,
    },
    /// A validated success envelope could not be projected through the command-specific parser.
    InvalidResultProjection,
    /// Exact command-response correlation failed without consuming unrelated state.
    Correlation {
        /// Exact typed correlation failure.
        source: WebDriverBiDiCommandCorrelationError,
    },
    /// The remote end returned a correlatable WebDriver BiDi protocol error for this command.
    RemoteProtocolError {
        /// Exact local command identifier consumed by the protocol-error response.
        command_id: u64,
        /// Protocol error code retained from the validated common envelope.
        error_code: String,
    },
}

impl WebDriverBiDiNavigationCommittedSubscriptionResponseError {
    /// Stable operator-facing description that never includes message content.
    pub open spec fn description(&self) -> Seq<char> {
        match self {
            WebDriverBiDiNavigationCommittedSubscriptionResponseError::Envelope { .. } => "WebDriver BiDi session.subscribe envelope is invalid"@,
            WebDriverBiDiNavigationCommittedSubscriptionResponseError::MissingSubscription => "WebDriver BiDi session.subscribe result is missing subscription"@,
            WebDriverBiDiNavigationCommittedSubscriptionResponseError::InvalidSubscription => "WebDriver BiDi session.subscribe result subscription is invalid"@,
            WebDriverBiDiNavigationCommittedSubscriptionResponseError::DuplicateSubscription => "WebDriver BiDi session.subscribe result contains duplicate subscription"@,
            WebDriverBiDiNavigationCommittedSubscriptionResponseError::SubscriptionTooLarge { .. } => "WebDriver BiDi session.subscribe result subscription exceeds the size bound"@,
            WebDriverBiDiNavigationCommittedSubscriptionResponseError::InvalidResultProjection => "WebDriver BiDi session.subscribe result projection is invalid"@,
            WebDriverBiDiNavigationCommittedSubscriptionResponseError::Correlation { .. } => "WebDriver BiDi session.subscribe response correlation failed"@,
            WebDriverBiDiNavigationCommittedSubscriptionResponseError::RemoteProtocolError { .. } => "WebDriver BiDi session.subscribe returned a protocol error"@,
        }
    }

    /// Stable operator-facing description that never includes message content.
    pub fn to_string(&self) -> (text: String)
        ensures
            text@ == self.description(),
    {
        match self {
            WebDriverBiDiNavigationCommittedSubscriptionResponseError::Envelope { .. } => "WebDriver BiDi session.subscribe envelope is invalid".to_owned(),
            WebDriverBiDiNavigationCommittedSubscriptionResponseError::MissingSubscription => "WebDriver BiDi session.subscribe result is missing subscription".to_owned(),
            WebDriverBiDiNavigationCommittedSubscriptionResponseError::InvalidSubscription => "WebDriver BiDi session.subscribe result subscription is invalid".to_owned(),
            WebDriverBiDiNavigationCommittedSubscriptionResponseError::DuplicateSubscription => "WebDriver BiDi session.subscribe result contains duplicate subscription".to_owned(),
            WebDriverBiDiNavigationCommittedSubscriptionResponseError::SubscriptionTooLarge { .. } => "WebDriver BiDi session.subscribe result subscription exceeds the size bound".to_owned(),
            WebDriverBiDiNavigationCommittedSubscriptionResponseError::InvalidResultProjection => "WebDriver BiDi session.subscribe result projection is invalid".to_owned(),
            WebDriverBiDiNavigationCommittedSubscriptionResponseError::Correlation { .. } => "WebDriver BiDi session.subscribe response correlation failed".to_owned(),
            WebDriverBiDiNavigationCommittedSubscriptionResponseError::RemoteProtocolError { .. } => "WebDriver BiDi session.subscribe returned a protocol error".to_owned(),
        }
    }

    /// The wrapped envelope or correlation failure, when this error wraps one.
    pub fn source(&self) -> (source: Option<WebDriverBiDiErrorSource<'_>>)
        ensures
            match self {
                WebDriverBiDiNavigationCommittedSubscriptionResponseError::Envelope { source: e } => source == Some(
                    WebDriverBiDiErrorSource::Envelope(e),
                ),
                WebDriverBiDiNavigationCommittedSubscriptionResponseError::Correlation { source: e } => source
                    == Some(WebDriverBiDiErrorSource::Correlation(e)),
                _ => source is None,
            },
    {
        match self {
            WebDriverBiDiNavigationCommittedSubscriptionResponseError::Envelope { source } => Some(
                WebDriverBiDiErrorSource::Envelope(source),
            ),
            WebDriverBiDiNavigationCommittedSubscriptionResponseError::Correlation { source } => Some(
                WebDriverBiDiErrorSource::Correlation(source),
            ),
            _ => None,
        }
    }
}

/// The refusal for a success result that the subscription projection cannot read.
pub open spec fn invalid_subscription_projection() -> WebDriverBiDiNavigationCommittedSubscriptionResponseError {
    WebDriverBiDiNavigationCommittedSubscriptionResponseError::InvalidResultProjection
}

/// One member of the `result` object whose value starts at `k3`: the end of its value and the
/// subscription identifier seen so far, or the refusal.
pub open spec fn subscription_result_member(
    s: Seq<u8>,
    k3: int,
    key: Seq<u8>,
    subscription: Option<Seq<u8>>,
) -> Result<(int, Option<Seq<u8>>), WebDriverBiDiNavigationCommittedSubscriptionResponseError> {
    if key == lit("subscription") {
        if subscription is Some {
            Err(WebDriverBiDiNavigationCommittedSubscriptionResponseError::DuplicateSubscription)
        } else {
            match json_text_at(s, k3) {
                None => Err(WebDriverBiDiNavigationCommittedSubscriptionResponseError::InvalidSubscription),
                Some((k4, id)) => if id.len() > MAX_WEBDRIVER_BIDI_SUBSCRIPTION_IDENTIFIER_BYTES {
                    Err(WebDriverBiDiNavigationCommittedSubscriptionResponseError::SubscriptionTooLarge {
                        maximum_bytes: MAX_WEBDRIVER_BIDI_SUBSCRIPTION_IDENTIFIER_BYTES,
                    })
                } else {
                    Ok((k4, Some(id)))
                },
            }
        }
    } else {
        match lenient_value(s, k3) {
            None => Err(invalid_subscription_projection()),
            Some(k4) => Ok((k4, subscription)),
        }
    }
}

/// The members of the `result` object from `j` on, given the identifier already seen.
pub open spec fn subscription_result_members(
    s: Seq<u8>,
    j: int,
    subscription: Option<Seq<u8>>,
) -> Result<Seq<u8>, WebDriverBiDiNavigationCommittedSubscriptionResponseError>
    decreases s.len() - j,
{
    match member_head(s, j) {
        None => Err(invalid_subscription_projection()),
        Some((k3, key)) => match subscription_result_member(s, k3, key, subscription) {
            Err(e) => Err(e),
            Ok((k4, id)) => match member_separator(s, k4) {
                (MemberSeparator::Close, _) => match id {
                    None => Err(WebDriverBiDiNavigationCommittedSubscriptionResponseError::MissingSubscription),
                    Some(id) => Ok(id),
                },
                (MemberSeparator::Comma, next) => if next > j {
                    subscription_result_members(s, next, id)
                } else {
                    Err(invalid_subscription_projection())
                },
                (MemberSeparator::Other, _) => Err(invalid_subscription_projection()),
            },
        },
    }
}

/// The `result` object whose `{` should be at `k`.
pub open spec fn subscription_result(s: Seq<u8>, k: int) -> Result<
    Seq<u8>,
    WebDriverBiDiNavigationCommittedSubscriptionResponseError,
> {
    if byte_at(s, k) != Some(OPEN_BRACE) {
        Err(invalid_subscription_projection())
    } else {
        let k1 = ws_end(s, k + 1);
        if byte_at(s, k1) == Some(CLOSE_BRACE) {
            Err(WebDriverBiDiNavigationCommittedSubscriptionResponseError::MissingSubscription)
        } else {
            subscription_result_members(s, k1, None)
        }
    }
}

/// The top-level members from `j` on, up to and including the `result` member.
pub open spec fn subscription_top_members(s: Seq<u8>, j: int) -> Result<
    Seq<u8>,
    WebDriverBiDiNavigationCommittedSubscriptionResponseError,
>
    decreases s.len() - j,
{
    match member_head(s, j) {
        None => Err(invalid_subscription_projection()),
        Some((k3, key)) => if key == lit("result") {
            subscription_result(s, k3)
        } else {
            match lenient_value(s, k3) {
                None => Err(invalid_subscription_projection()),
                Some(k4) => match member_separator(s, k4) {
                    (MemberSeparator::Comma, next) => if next > j {
                        subscription_top_members(s, next)
                    } else {
                        Err(invalid_subscription_projection())
                    },
                    _ => Err(invalid_subscription_projection()),
                },
            }
        },
    }
}

/// Projection of `result.subscription` out of one document: the decoded identifier bytes, or the
/// first refusal.
pub open spec fn subscription_projection(s: Seq<u8>) -> Result<
    Seq<u8>,
    WebDriverBiDiNavigationCommittedSubscriptionResponseError,
> {
    let i0 = ws_end(s, 0);
    if byte_at(s, i0) != Some(OPEN_BRACE) {
        Err(invalid_subscription_projection())
    } else {
        let i1 = ws_end(s, i0 + 1);
        if byte_at(s, i1) == Some(CLOSE_BRACE) {
            Err(invalid_subscription_projection())
        } else {
            subscription_top_members(s, i1)
        }
    }
}

spec fn opt_bytes(v: Option<Vec<u8>>) -> Option<Seq<u8>> {
    match v {
        Some(b) => Some(b@),
        None => None,
    }
}

fn is_key(key: &Vec<u8>, name: &'static str) -> (found: bool)
    requires
        vstd::string::is_ascii(name),
    ensures
        found == (key@ == lit(name)),
{
    bytes_equal(key.as_slice(), ascii_literal(name))
}

fn parse_result_member(
    cursor: &mut ProjectionCursor,
    key: &Vec<u8>,
    subscription: Option<Vec<u8>>,
) -> (result: Result<Option<Vec<u8>>, WebDriverBiDiNavigationCommittedSubscriptionResponseError>)
    requires
        subscription matches Some(m) ==> valid_utf8(m@) && m@.len() <= MAX_WEBDRIVER_BIDI_SUBSCRIPTION_IDENTIFIER_BYTES,
    ensures
        final(cursor).bytes() == old(cursor).bytes(),
        final(cursor).position() >= old(cursor).position(),
        match subscription_result_member(old(cursor).bytes(), old(cursor).position(), key@, opt_bytes(subscription)) {
            Ok((k4, id)) => result matches Ok(id2) && opt_bytes(id2) == id && final(cursor).position()
                == k4 && (id2 matches Some(b) ==> valid_utf8(b@) && b@.len() <= MAX_WEBDRIVER_BIDI_SUBSCRIPTION_IDENTIFIER_BYTES),
            Err(e) => result == Err::<Option<Vec<u8>>, WebDriverBiDiNavigationCommittedSubscriptionResponseError>(e),
        },
{
    proof {
        reveal_strlit("subscription");
    }
    if is_key(key, "subscription") {
        if subscription.is_some() {
            return Err(WebDriverBiDiNavigationCommittedSubscriptionResponseError::DuplicateSubscription);
        }
        let parsed = match cursor.parse_string_bytes() {
            Some(id) => id,
            None => return Err(WebDriverBiDiNavigationCommittedSubscriptionResponseError::InvalidSubscription),
        };
        if str_from_utf8(parsed.as_slice()).is_none() {
            return Err(WebDriverBiDiNavigationCommittedSubscriptionResponseError::InvalidSubscription);
        }
        if parsed.len() > MAX_WEBDRIVER_BIDI_SUBSCRIPTION_IDENTIFIER_BYTES {
            return Err(WebDriverBiDiNavigationCommittedSubscriptionResponseError::SubscriptionTooLarge {
                maximum_bytes: MAX_WEBDRIVER_BIDI_SUBSCRIPTION_IDENTIFIER_BYTES,
            });
        }
        Ok(Some(parsed))
    } else {
        if !cursor.skip_value() {
            return Err(WebDriverBiDiNavigationCommittedSubscriptionResponseError::InvalidResultProjection);
        }
        Ok(subscription)
    }
}

fn parse_result_object(cursor: &mut ProjectionCursor) -> (result: Result<
    Vec<u8>,
    WebDriverBiDiNavigationCommittedSubscriptionResponseError,
>)
    ensures
        match result {
            Ok(id) => subscription_result(old(cursor).bytes(), old(cursor).position()) == Ok::<
                Seq<u8>,
                WebDriverBiDiNavigationCommittedSubscriptionResponseError,
            >(id@) && valid_utf8(id@) && id@.len() <= MAX_WEBDRIVER_BIDI_SUBSCRIPTION_IDENTIFIER_BYTES,
            Err(e) => subscription_result(old(cursor).bytes(), old(cursor).position()) == Err::<
                Seq<u8>,
                WebDriverBiDiNavigationCommittedSubscriptionResponseError,
            >(e),
        },
{
    let ghost s = cursor.bytes();
    let ghost start = cursor.position();
    if !cursor.consume_byte(OPEN_BRACE) {
        return Err(WebDriverBiDiNavigationCommittedSubscriptionResponseError::InvalidResultProjection);
    }
    cursor.skip_whitespace();
    if cursor.consume_byte(CLOSE_BRACE) {
        return Err(WebDriverBiDiNavigationCommittedSubscriptionResponseError::MissingSubscription);
    }
    let mut subscription: Option<Vec<u8>> = None;
    loop
        invariant
            cursor.bytes() == s,
            s == old(cursor).bytes(),
            start == old(cursor).position(),
            subscription_result(s, start) == subscription_result_members(
                s,
                cursor.position(),
                opt_bytes(subscription),
            ),
            subscription matches Some(m) ==> valid_utf8(m@) && m@.len() <= MAX_WEBDRIVER_BIDI_SUBSCRIPTION_IDENTIFIER_BYTES,
        decreases s.len() - cursor.position(),
    {
        let ghost j = cursor.position();
        proof {
            use_type_invariant(&*cursor);
        }
        let key = match cursor.parse_member_name() {
            Some(key) => key,
            None => return Err(WebDriverBiDiNavigationCommittedSubscriptionResponseError::InvalidResultProjection),
        };
        let seen = match parse_result_member(cursor, &key, subscription) {
            Ok(seen) => seen,
            Err(e) => return Err(e),
        };
        match cursor.member_separator() {
            MemberSeparator::Close => return match seen {
                None => Err(WebDriverBiDiNavigationCommittedSubscriptionResponseError::MissingSubscription),
                Some(id) => Ok(id),
            },
            MemberSeparator::Comma => {},
            MemberSeparator::Other => return Err(
                WebDriverBiDiNavigationCommittedSubscriptionResponseError::InvalidResultProjection,
            ),
        }
        subscription = seen;
        proof {
            assert(cursor.position() > j);
        }
    }
}

fn project_subscription(text: &str) -> (result: Result<
    Vec<u8>,
    WebDriverBiDiNavigationCommittedSubscriptionResponseError,
>)
    ensures
        match result {
            Ok(id) => subscription_projection(encode_utf8(text@)) == Ok::<
                Seq<u8>,
                WebDriverBiDiNavigationCommittedSubscriptionResponseError,
            >(id@) && valid_utf8(id@) && id@.len() <= MAX_WEBDRIVER_BIDI_SUBSCRIPTION_IDENTIFIER_BYTES,
            Err(e) => subscription_projection(encode_utf8(text@)) == Err::<
                Seq<u8>,
                WebDriverBiDiNavigationCommittedSubscriptionResponseError,
            >(e),
        },
{
    let mut cursor = ProjectionCursor::new(text);
    let ghost s = cursor.bytes();
    cursor.skip_whitespace();
    if !cursor.consume_byte(OPEN_BRACE) {
        return Err(WebDriverBiDiNavigationCommittedSubscriptionResponseError::InvalidResultProjection);
    }
    cursor.skip_whitespace();
    if cursor.consume_byte(CLOSE_BRACE) {
        return Err(WebDriverBiDiNavigationCommittedSubscriptionResponseError::InvalidResultProjection);
    }
    loop
        invariant
            cursor.bytes() == s,
            s == encode_utf8(text@),
            subscription_projection(s) == subscription_top_members(s, cursor.position()),
        decreases s.len() - cursor.position(),
    {
        let ghost j = cursor.position();
        proof {
            use_type_invariant(&cursor);
        }
        let key = match cursor.parse_member_name() {
            Some(key) => key,
            None => return Err(WebDriverBiDiNavigationCommittedSubscriptionResponseError::InvalidResultProjection),
        };
        proof {
            reveal_strlit("result");
        }
        if is_key(&key, "result") {
            return parse_result_object(&mut cursor);
        }
        if !cursor.skip_value() {
            return Err(WebDriverBiDiNavigationCommittedSubscriptionResponseError::InvalidResultProjection);
        }
        match cursor.member_separator() {
            MemberSeparator::Comma => {},
            _ => return Err(WebDriverBiDiNavigationCommittedSubscriptionResponseError::InvalidResultProjection),
        }
        proof {
            assert(cursor.position() > j);
        }
    }
}

/// The `result.subscription` member of one successful `session.subscribe` response.
#[derive(Debug)]
pub struct SubscriptionProjection {
    /// The opaque subscription identifier.
    pub subscription_id: String,
}

impl SubscriptionProjection {
    /// Project `result.subscription` out of one document.
    pub fn parse(text: &str) -> (result: Result<Self, WebDriverBiDiNavigationCommittedSubscriptionResponseError>)
        ensures
            match result {
                Ok(p) => subscription_projection(encode_utf8(text@)) matches Ok(id)
                    && encode_utf8(p.subscription_id@) == id,
                Err(e) => subscription_projection(encode_utf8(text@)) == Err::<
                    Seq<u8>,
                    WebDriverBiDiNavigationCommittedSubscriptionResponseError,
                >(e),
            },
    {
        match project_subscription(text) {
            Ok(id) => {
                let ghost bytes = id@;
                match string_from_utf8(id) {
                    Some(subscription_id) => {
                        proof {
                            decode_utf8_encode_utf8(bytes);
                        }
                        Ok(SubscriptionProjection { subscription_id })
                    },
                    None => {
                        proof {
                            assert(false);
                        }
                        Err(WebDriverBiDiNavigationCommittedSubscriptionResponseError::InvalidSubscription)
                    },
                }
            },
            Err(e) => Err(e),
        }
    }
}

/// The protocol error code of an error envelope; the classifier always keeps one, and its absence is
/// reported as the missing `error` member.
pub fn retain_validated_error_code(error_code: Option<&str>) -> (result: Result<
    String,
    WebDriverBiDiNavigationCommittedSubscriptionResponseError,
>)
    ensures
        match error_code {
            Some(code) => result matches Ok(text) && text@ == code@,
            None => result == Err::<String, WebDriverBiDiNavigationCommittedSubscriptionResponseError>(
                WebDriverBiDiNavigationCommittedSubscriptionResponseError::Envelope {
                    source: WebDriverBiDiJsonEnvelopeError::MissingRequiredMember { member: "error" },
                },
            ),
        },
{
    match error_code {
        Some(code) => Ok(code.to_owned()),
        None => Err(WebDriverBiDiNavigationCommittedSubscriptionResponseError::Envelope {
            source: WebDriverBiDiJsonEnvelopeError::MissingRequiredMember { member: "error" },
        }),
    }
}

/// What admitting one `session.subscribe` response yields.
pub enum SubscriptionAdmission {
    /// The command was consumed by a successful result carrying this subscription identifier.
    Subscribed(u64, Seq<u8>),
    /// The command was consumed by a protocol error with this error code.
    RemoteError(u64, Seq<char>),
    /// The response was refused.
    Refused(WebDriverBiDiNavigationCommittedSubscriptionResponseError),
}

/// Admission of one `session.subscribe` response document against the outstanding commands: the
/// outstanding commands afterwards, and what the admission yields.
pub open spec fn subscription_response(s: Seq<u8>, outstanding: OutstandingCommands) -> (
    OutstandingCommands,
    SubscriptionAdmission,
) {
    match parse_envelope(s) {
        Err(e) => (
            outstanding,
            SubscriptionAdmission::Refused(
                WebDriverBiDiNavigationCommittedSubscriptionResponseError::Envelope { source: e },
            ),
        ),
        Ok(envelope) => match envelope.kind {
            WebDriverBiDiJsonEnvelopeKind::Success => match subscription_projection(s) {
                Err(e) => (outstanding, SubscriptionAdmission::Refused(e)),
                Ok(id) => match correlate_spec(outstanding, envelope, (None, None)) {
                    Err(c) => (
                        outstanding,
                        SubscriptionAdmission::Refused(
                            WebDriverBiDiNavigationCommittedSubscriptionResponseError::Correlation {
                                source: c,
                            },
                        ),
                    ),
                    Ok((after, (command_id, _))) => (after, SubscriptionAdmission::Subscribed(command_id, id)),
                },
            },
            WebDriverBiDiJsonEnvelopeKind::Error => match correlate_spec(outstanding, envelope, (None, None)) {
                Err(c) => (
                    outstanding,
                    SubscriptionAdmission::Refused(
                        WebDriverBiDiNavigationCommittedSubscriptionResponseError::Correlation { source: c },
                    ),
                ),
                Ok((after, (command_id, _))) => (
                    after,
                    SubscriptionAdmission::RemoteError(command_id, decode_utf8(envelope.error_code.unwrap())),
                ),
            },
            WebDriverBiDiJsonEnvelopeKind::Event => (
                outstanding,
                SubscriptionAdmission::Refused(
                    WebDriverBiDiNavigationCommittedSubscriptionResponseError::Correlation {
                        source: WebDriverBiDiCommandCorrelationError::EventIsNotResponse,
                    },
                ),
            ),
        },
    }
}

/// Typed, correlated successful result of one context-scoped `session.subscribe`.
///
/// The opaque subscription identifier is kept as UTF-8 bytes beside its length, so that a debug
/// rendering shows the identifier's length and never its text.
#[derive(Debug)]
pub struct WebDriverBiDiNavigationCommittedSubscriptionResult {
    command_id: u64,
    subscription_id_len: usize,
    subscription_id: Vec<u8>,
}

impl View for WebDriverBiDiNavigationCommittedSubscriptionResult {
    type V = (u64, Seq<u8>);

    closed spec fn view(&self) -> (u64, Seq<u8>) {
        (self.command_id, self.subscription_id@)
    }
}

impl WebDriverBiDiNavigationCommittedSubscriptionResult {
    /// The identifier is bounded UTF-8 text and its recorded length is exact.
    #[verifier::type_invariant]
    pub closed spec fn well_formed(&self) -> bool {
        &&& valid_utf8(self.subscription_id@)
        &&& self.subscription_id_len == self.subscription_id@.len()
        &&& self.subscription_id@.len() <= MAX_WEBDRIVER_BIDI_SUBSCRIPTION_IDENTIFIER_BYTES
    }

    /// Parse one bounded local-end message and consume its exact outstanding command on success.
    pub fn parse_and_correlate(
        message: &WebDriverBiDiWebSocketTextMessage,
        correlation: &mut WebDriverBiDiCommandCorrelation,
    ) -> (result: Result<Self, WebDriverBiDiNavigationCommittedSubscriptionResponseError>)
        ensures
            ({
                let (after, expected) = subscription_response(message.bytes(), old(correlation)@);
                &&& final(correlation)@ == after
                &&& match expected {
                    SubscriptionAdmission::Subscribed(id, sub) => result matches Ok(r) && r@ == (id, sub),
                    SubscriptionAdmission::RemoteError(id, code) => result matches Err(
                        WebDriverBiDiNavigationCommittedSubscriptionResponseError::RemoteProtocolError {
                            command_id,
                            error_code,
                        },
                    ) && command_id == id && error_code@ == code,
                    SubscriptionAdmission::Refused(e) => result == Err::<
                        Self,
                        WebDriverBiDiNavigationCommittedSubscriptionResponseError,
                    >(e),
                }
            }),
    {
        let envelope = match WebDriverBiDiJsonEnvelope::parse(message) {
            Ok(envelope) => envelope,
            Err(source) => return Err(WebDriverBiDiNavigationCommittedSubscriptionResponseError::Envelope { source }),
        };
        proof {
            use_type_invariant(&envelope);
        }
        match envelope.kind() {
            WebDriverBiDiJsonEnvelopeKind::Success => {
                let id = match project_subscription(message.as_str()) {
                    Ok(id) => id,
                    Err(e) => return Err(e),
                };
                let completed = match correlation.correlate_response(&envelope) {
                    Ok(completed) => completed,
                    Err(source) => return Err(
                        WebDriverBiDiNavigationCommittedSubscriptionResponseError::Correlation { source },
                    ),
                };
                Ok(WebDriverBiDiNavigationCommittedSubscriptionResult {
                    command_id: completed.command_id(),
                    subscription_id_len: id.len(),
                    subscription_id: id,
                })
            },
            WebDriverBiDiJsonEnvelopeKind::Error => {
                let error_code = match retain_validated_error_code(envelope.error_code()) {
                    Ok(code) => code,
                    Err(e) => return Err(e),
                };
                match correlation.correlate_response(&envelope) {
                    Ok(completed) => Err(
                        WebDriverBiDiNavigationCommittedSubscriptionResponseError::RemoteProtocolError {
                            command_id: completed.command_id(),
                            error_code,
                        },
                    ),
                    Err(source) => Err(
                        WebDriverBiDiNavigationCommittedSubscriptionResponseError::Correlation { source },
                    ),
                }
            },
            WebDriverBiDiJsonEnvelopeKind::Event => Err(
                WebDriverBiDiNavigationCommittedSubscriptionResponseError::Correlation {
                    source: WebDriverBiDiCommandCorrelationError::EventIsNotResponse,
                },
            ),
        }
    }

    /// Return the exact local command identifier consumed by this result.
    pub fn command_id(&self) -> (id: u64)
        ensures
            id == self@.0,
    {
        self.command_id
    }

    /// Borrow the bounded opaque subscription identifier returned by the remote end.
    pub fn subscription_id(&self) -> (text: &str)
        ensures
            encode_utf8(text@) == self@.1,
    {
        proof {
            use_type_invariant(self);
        }
        match str_from_utf8(self.subscription_id.as_slice()) {
            Some(text) => {
                proof {
                    decode_utf8_encode_utf8(self@.1);
                }
                text
            },
            None => {
                proof {
                    assert(false);
                }
                ""
            },
        }
    }
}

} // verus!
