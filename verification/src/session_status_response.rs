//! Typed admission of one correlated WebDriver BiDi `session.status` response.

use vstd::prelude::*;
use vstd::utf8::*;

use crate::command_correlation::{
    correlate_spec, correlation_outcome, OutstandingCommands, WebDriverBiDiCommandCorrelation,
    WebDriverBiDiCommandCorrelationError,
};
use crate::error_source::WebDriverBiDiErrorSource;
use crate::json_envelope::{
    lit, parse_envelope, SpecEnvelope, WebDriverBiDiJsonEnvelope, WebDriverBiDiJsonEnvelopeError,
    WebDriverBiDiJsonEnvelopeKind,
};
use crate::json_text::{
    ascii_literal, byte_at, bytes_equal, has_literal_at, json_string, lemma_json_string_bounds,
    lemma_ws_end, ws_end, CLOSE_BRACE, COLON, COMMA, OPEN_BRACE,
};
use crate::projection_cursor::{
    json_text_at, lenient_value, member_head, member_separator, MemberSeparator, ProjectionCursor,
};
use crate::text_message::{str_from_utf8, WebDriverBiDiWebSocketTextMessage};

verus! {

/// Maximum decoded byte length retained from the implementation-defined `session.status` message.
pub const MAX_WEBDRIVER_BIDI_SESSION_STATUS_MESSAGE_SIZE: usize = 4_096;

/// Fail-closed failures while admitting one typed WebDriver BiDi `session.status` response.
#[derive(Clone, Debug, PartialEq, Eq)]
pub enum WebDriverBiDiSessionStatusResponseError {
    /// Common local-end JSON envelope validation failed.
    Envelope {
        /// Exact common-envelope validation failure.
        source: WebDriverBiDiJsonEnvelopeError,
    },
    /// The successful result object omits the required `ready` member.
    MissingReady,
    /// The successful result object's `ready` member is not a JSON boolean.
    InvalidReady,
    /// The successful result object omits the required `message` member.
    MissingMessage,
    /// The successful result object's `message` member is not JSON text.
    InvalidMessage,
    /// The successful result repeats one command-specific member and is ambiguous.
    DuplicateResultMember {
        /// Stable command-specific member name that was repeated.
        member: &'static str,
    },
    /// The decoded implementation-defined status message exceeds the size bound.
    MessageTooLarge {
        /// Maximum decoded message length admitted in bytes.
        maximum_bytes: usize,
    },
    /// A validated success envelope could not be projected through the command-specific parser.
    InvalidResultProjection,
    /// Exact command-response correlation failed without consuming unrelated state.
    Correlation {
        /// Exact typed correlation failure.
        source: WebDriverBiDiCommandCorrelationError,
    },
    /// The remote end returned a correlatable WebDriver BiDi protocol error for this command.
    RemoteProtocolError {
        /// Exact local command identifier consumed by the protocol-error response.
        command_id: u64,
    },
}

impl WebDriverBiDiSessionStatusResponseError {
    /// Stable operator-facing description that never includes message content.
    pub open spec fn description(&self) -> Seq<char> {
        match self {
            WebDriverBiDiSessionStatusResponseError::Envelope { .. } => "WebDriver BiDi session.status envelope is invalid"@,
            WebDriverBiDiSessionStatusResponseError::MissingReady => "WebDriver BiDi session.status result is missing ready"@,
            WebDriverBiDiSessionStatusResponseError::InvalidReady => "WebDriver BiDi session.status result ready is invalid"@,
            WebDriverBiDiSessionStatusResponseError::MissingMessage => "WebDriver BiDi session.status result is missing message"@,
            WebDriverBiDiSessionStatusResponseError::InvalidMessage => "WebDriver BiDi session.status result message is invalid"@,
            WebDriverBiDiSessionStatusResponseError::DuplicateResultMember { .. } => "WebDriver BiDi session.status result contains a duplicate member"@,
            WebDriverBiDiSessionStatusResponseError::MessageTooLarge { .. } => "WebDriver BiDi session.status result message exceeds the size bound"@,
            WebDriverBiDiSessionStatusResponseError::InvalidResultProjection => "WebDriver BiDi session.status result projection is invalid"@,
            WebDriverBiDiSessionStatusResponseError::Correlation { .. } => "WebDriver BiDi session.status response correlation failed"@,
            WebDriverBiDiSessionStatusResponseError::RemoteProtocolError { .. } => "WebDriver BiDi session.status returned a protocol error"@,
        }
    }

    /// Stable operator-facing description that never includes message content.
    pub fn to_string(&self) -> (text: String)
        ensures
            text@ == self.description(),
    {
        match self {
            WebDriverBiDiSessionStatusResponseError::Envelope { .. } => "WebDriver BiDi session.status envelope is invalid".to_owned(),
            WebDriverBiDiSessionStatusResponseError::MissingReady => "WebDriver BiDi session.status result is missing ready".to_owned(),
            WebDriverBiDiSessionStatusResponseError::InvalidReady => "WebDriver BiDi session.status result ready is invalid".to_owned(),
            WebDriverBiDiSessionStatusResponseError::MissingMessage => "WebDriver BiDi session.status result is missing message".to_owned(),
            WebDriverBiDiSessionStatusResponseError::InvalidMessage => "WebDriver BiDi session.status result message is invalid".to_owned(),
            WebDriverBiDiSessionStatusResponseError::DuplicateResultMember { .. } => "WebDriver BiDi session.status result contains a duplicate member".to_owned(),
            WebDriverBiDiSessionStatusResponseError::MessageTooLarge { .. } => "WebDriver BiDi session.status result message exceeds the size bound".to_owned(),
            WebDriverBiDiSessionStatusResponseError::InvalidResultProjection => "WebDriver BiDi session.status result projection is invalid".to_owned(),
            WebDriverBiDiSessionStatusResponseError::Correlation { .. } => "WebDriver BiDi session.status response correlation failed".to_owned(),
            WebDriverBiDiSessionStatusResponseError::RemoteProtocolError { .. } => "WebDriver BiDi session.status returned a protocol error".to_owned(),
        }
    }

    /// The wrapped envelope or correlation failure, when this error wraps one.
    pub fn source(&self) -> (source: Option<WebDriverBiDiErrorSource<'_>>)
        ensures
            match self {
                WebDriverBiDiSessionStatusResponseError::Envelope { source: e } => source == Some(
                    WebDriverBiDiErrorSource::Envelope(e),
                ),
                WebDriverBiDiSessionStatusResponseError::Correlation { source: e } => source
                    == Some(WebDriverBiDiErrorSource::Correlation(e)),
                _ => source is None,
            },
    {
        match self {
            WebDriverBiDiSessionStatusResponseError::Envelope { source } => Some(
                WebDriverBiDiErrorSource::Envelope(source),
            ),
            WebDriverBiDiSessionStatusResponseError::Correlation { source } => Some(
                WebDriverBiDiErrorSource::Correlation(source),
            ),
            _ => None,
        }
    }
}

/// The refusal for a success result that the status projection cannot read.
pub open spec fn invalid_projection() -> WebDriverBiDiSessionStatusResponseError {
    WebDriverBiDiSessionStatusResponseError::InvalidResultProjection
}

/// The `ready` member value at `k`: a JSON boolean, or the reason it is refused.
pub open spec fn ready_value(s: Seq<u8>, k: int) -> Result<(int, bool), WebDriverBiDiSessionStatusResponseError> {
    if has_literal_at(s, k, lit("true")) {
        Ok((k + 4, true))
    } else if has_literal_at(s, k, lit("false")) {
        Ok((k + 5, false))
    } else {
        match lenient_value(s, k) {
            None => Err(invalid_projection()),
            Some(_) => Err(WebDriverBiDiSessionStatusResponseError::InvalidReady),
        }
    }
}

/// One member of the `result` object whose value starts at `k3`: the end of its value and the
/// `ready` and `message` values seen so far, or the refusal.
pub open spec fn status_result_member(
    s: Seq<u8>,
    k3: int,
    key: Seq<u8>,
    ready: Option<bool>,
    message: Option<Seq<u8>>,
) -> Result<(int, Option<bool>, Option<Seq<u8>>), WebDriverBiDiSessionStatusResponseError> {
    if key == lit("ready") {
        if ready is Some {
            Err(WebDriverBiDiSessionStatusResponseError::DuplicateResultMember { member: "ready" })
        } else {
            match ready_value(s, k3) {
                Err(e) => Err(e),
                Ok((k4, r)) => Ok((k4, Some(r), message)),
            }
        }
    } else if key == lit("message") {
        if message is Some {
            Err(WebDriverBiDiSessionStatusResponseError::DuplicateResultMember { member: "message" })
        } else {
            match json_text_at(s, k3) {
                None => Err(WebDriverBiDiSessionStatusResponseError::InvalidMessage),
                Some((k4, m)) => if m.len() > MAX_WEBDRIVER_BIDI_SESSION_STATUS_MESSAGE_SIZE {
                    Err(WebDriverBiDiSessionStatusResponseError::MessageTooLarge {
                        maximum_bytes: MAX_WEBDRIVER_BIDI_SESSION_STATUS_MESSAGE_SIZE,
                    })
                } else {
                    Ok((k4, ready, Some(m)))
                },
            }
        }
    } else {
        match lenient_value(s, k3) {
            None => Err(invalid_projection()),
            Some(k4) => Ok((k4, ready, message)),
        }
    }
}

/// The members of the `result` object from `j` on, given the `ready` and `message` values already
/// seen: the readiness bit and the decoded message bytes, or the first refusal.
pub open spec fn status_result_members(
    s: Seq<u8>,
    j: int,
    ready: Option<bool>,
    message: Option<Seq<u8>>,
) -> Result<(bool, Seq<u8>), WebDriverBiDiSessionStatusResponseError>
    decreases s.len() - j,
{
    match member_head(s, j) {
        None => Err(invalid_projection()),
        Some((k3, key)) => match status_result_member(s, k3, key, ready, message) {
            Err(e) => Err(e),
            Ok((k4, r, m)) => match member_separator(s, k4) {
                (MemberSeparator::Close, _) => match (r, m) {
                    (None, _) => Err(WebDriverBiDiSessionStatusResponseError::MissingReady),
                    (Some(_), None) => Err(WebDriverBiDiSessionStatusResponseError::MissingMessage),
                    (Some(r), Some(m)) => Ok((r, m)),
                },
                (MemberSeparator::Comma, next) => if next > j {
                    status_result_members(s, next, r, m)
                } else {
                    Err(invalid_projection())
                },
                (MemberSeparator::Other, _) => Err(invalid_projection()),
            },
        },
    }
}

/// The `result` object whose `{` should be at `k`.
pub open spec fn status_result(s: Seq<u8>, k: int) -> Result<(bool, Seq<u8>), WebDriverBiDiSessionStatusResponseError> {
    if byte_at(s, k) != Some(OPEN_BRACE) {
        Err(invalid_projection())
    } else {
        let k1 = ws_end(s, k + 1);
        if byte_at(s, k1) == Some(CLOSE_BRACE) {
            Err(WebDriverBiDiSessionStatusResponseError::MissingReady)
        } else {
            status_result_members(s, k1, None, None)
        }
    }
}

/// The top-level members from `j` on, up to and including the `result` member.
pub open spec fn status_top_members(s: Seq<u8>, j: int) -> Result<(bool, Seq<u8>), WebDriverBiDiSessionStatusResponseError>
    decreases s.len() - j,
{
    match member_head(s, j) {
        None => Err(invalid_projection()),
        Some((k3, key)) => if key == lit("result") {
            status_result(s, k3)
        } else {
            match lenient_value(s, k3) {
                None => Err(invalid_projection()),
                Some(k4) => match member_separator(s, k4) {
                    (MemberSeparator::Comma, next) => if next > j {
                        status_top_members(s, next)
                    } else {
                        Err(invalid_projection())
                    },
                    _ => Err(invalid_projection()),
                },
            }
        },
    }
}

/// Projection of `result.ready` and `result.message` out of one document: the readiness bit and
/// the decoded message bytes, or the first refusal.
pub open spec fn status_projection(s: Seq<u8>) -> Result<(bool, Seq<u8>), WebDriverBiDiSessionStatusResponseError> {
    let i0 = ws_end(s, 0);
    if byte_at(s, i0) != Some(OPEN_BRACE) {
        Err(invalid_projection())
    } else {
        let i1 = ws_end(s, i0 + 1);
        if byte_at(s, i1) == Some(CLOSE_BRACE) {
            Err(invalid_projection())
        } else {
            status_top_members(s, i1)
        }
    }
}

spec fn opt_bytes(v: Option<Vec<u8>>) -> Option<Seq<u8>> {
    match v {
        Some(b) => Some(b@),
        None => None,
    }
}

/// The `result.ready` and `result.message` members of one successful `session.status` response.
#[derive(Debug)]
pub struct StatusProjection {
    /// Whether the remote end reports readiness to create a new session.
    pub ready: bool,
    /// The implementation-defined readiness message.
    pub message: String,
}

fn is_key(key: &Vec<u8>, name: &'static str) -> (found: bool)
    requires
        vstd::string::is_ascii(name),
    ensures
        found == (key@ == lit(name)),
{
    bytes_equal(key.as_slice(), ascii_literal(name))
}

fn parse_ready(cursor: &mut ProjectionCursor) -> (result: Result<bool, WebDriverBiDiSessionStatusResponseError>)
    ensures
        final(cursor).bytes() == old(cursor).bytes(),
        final(cursor).position() >= old(cursor).position(),
        match ready_value(old(cursor).bytes(), old(cursor).position()) {
            Ok((end, r)) => result == Ok::<bool, WebDriverBiDiSessionStatusResponseError>(r)
                && final(cursor).position() == end,
            Err(e) => result == Err::<bool, WebDriverBiDiSessionStatusResponseError>(e),
        },
{
    proof {
        reveal_strlit("true");
        reveal_strlit("false");
    }
    if cursor.consume_literal(ascii_literal("true")) {
        Ok(true)
    } else if cursor.consume_literal(ascii_literal("false")) {
        Ok(false)
    } else {
        if !cursor.skip_value() {
            return Err(WebDriverBiDiSessionStatusResponseError::InvalidResultProjection);
        }
        Err(WebDriverBiDiSessionStatusResponseError::InvalidReady)
    }
}

fn parse_result_member(
    cursor: &mut ProjectionCursor,
    key: &Vec<u8>,
    ready: Option<bool>,
    message: Option<Vec<u8>>,
) -> (result: Result<(Option<bool>, Option<Vec<u8>>), WebDriverBiDiSessionStatusResponseError>)
    requires
        message matches Some(m) ==> valid_utf8(m@),
    ensures
        final(cursor).bytes() == old(cursor).bytes(),
        final(cursor).position() >= old(cursor).position(),
        match status_result_member(old(cursor).bytes(), old(cursor).position(), key@, ready, opt_bytes(message)) {
            Ok((k4, r, m)) => result matches Ok((r2, m2)) && r2 == r && opt_bytes(m2) == m
                && final(cursor).position() == k4 && (m2 matches Some(b) ==> valid_utf8(b@)),
            Err(e) => result == Err::<(Option<bool>, Option<Vec<u8>>), WebDriverBiDiSessionStatusResponseError>(e),
        },
{
    proof {
        reveal_strlit("ready");
        reveal_strlit("message");
    }
    if is_key(key, "ready") {
        if ready.is_some() {
            return Err(WebDriverBiDiSessionStatusResponseError::DuplicateResultMember { member: "ready" });
        }
        let parsed = match parse_ready(cursor) {
            Ok(r) => r,
            Err(e) => return Err(e),
        };
        Ok((Some(parsed), message))
    } else if is_key(key, "message") {
        if message.is_some() {
            return Err(WebDriverBiDiSessionStatusResponseError::DuplicateResultMember { member: "message" });
        }
        let parsed = match cursor.parse_string_bytes() {
            Some(m) => m,
            None => return Err(WebDriverBiDiSessionStatusResponseError::InvalidMessage),
        };
        if str_from_utf8(parsed.as_slice()).is_none() {
            return Err(WebDriverBiDiSessionStatusResponseError::InvalidMessage);
        }
        if parsed.len() > MAX_WEBDRIVER_BIDI_SESSION_STATUS_MESSAGE_SIZE {
            return Err(WebDriverBiDiSessionStatusResponseError::MessageTooLarge {
                maximum_bytes: MAX_WEBDRIVER_BIDI_SESSION_STATUS_MESSAGE_SIZE,
            });
        }
        Ok((ready, Some(parsed)))
    } else {
        if !cursor.skip_value() {
            return Err(WebDriverBiDiSessionStatusResponseError::InvalidResultProjection);
        }
        Ok((ready, message))
    }
}

fn finish_result(ready: Option<bool>, message: Option<Vec<u8>>) -> (result: Result<
    (bool, Vec<u8>),
    WebDriverBiDiSessionStatusResponseError,
>)
    requires
        message matches Some(m) ==> valid_utf8(m@),
    ensures
        match (ready, opt_bytes(message)) {
            (None, _) => result == Err::<(bool, Vec<u8>), WebDriverBiDiSessionStatusResponseError>(
                WebDriverBiDiSessionStatusResponseError::MissingReady,
            ),
            (Some(_), None) => result == Err::<(bool, Vec<u8>), WebDriverBiDiSessionStatusResponseError>(
                WebDriverBiDiSessionStatusResponseError::MissingMessage,
            ),
            (Some(r), Some(m)) => result matches Ok((r2, m2)) && r2 == r && m2@ == m,
        },
{
    match (ready, message) {
        (None, _) => Err(WebDriverBiDiSessionStatusResponseError::MissingReady),
        (Some(_), None) => Err(WebDriverBiDiSessionStatusResponseError::MissingMessage),
        (Some(r), Some(m)) => Ok((r, m)),
    }
}

fn parse_result_object(cursor: &mut ProjectionCursor) -> (result: Result<
    (bool, Vec<u8>),
    WebDriverBiDiSessionStatusResponseError,
>)
    ensures
        match result {
            Ok((r2, m2)) => status_result(old(cursor).bytes(), old(cursor).position()) matches Ok((r, m))
                && r2 == r && m2@ == m && valid_utf8(m),
            Err(e) => status_result(old(cursor).bytes(), old(cursor).position()) == Err::<
                (bool, Seq<u8>),
                WebDriverBiDiSessionStatusResponseError,
            >(e),
        },
{
    let ghost s = cursor.bytes();
    let ghost start = cursor.position();
    if !cursor.consume_byte(OPEN_BRACE) {
        return Err(WebDriverBiDiSessionStatusResponseError::InvalidResultProjection);
    }
    cursor.skip_whitespace();
    if cursor.consume_byte(CLOSE_BRACE) {
        return Err(WebDriverBiDiSessionStatusResponseError::MissingReady);
    }
    let mut ready: Option<bool> = None;
    let mut message: Option<Vec<u8>> = None;
    loop
        invariant
            cursor.bytes() == s,
            s == old(cursor).bytes(),
            start == old(cursor).position(),
            status_result(s, start) == status_result_members(
                s,
                cursor.position(),
                ready,
                opt_bytes(message),
            ),
            message matches Some(m) ==> valid_utf8(m@),
        decreases s.len() - cursor.position(),
    {
        let ghost j = cursor.position();
        proof {
            use_type_invariant(&*cursor);
        }
        let key = match cursor.parse_member_name() {
            Some(key) => key,
            None => return Err(WebDriverBiDiSessionStatusResponseError::InvalidResultProjection),
        };
        let (r, m) = match parse_result_member(cursor, &key, ready, message) {
            Ok(seen) => seen,
            Err(e) => return Err(e),
        };
        match cursor.member_separator() {
            MemberSeparator::Close => return finish_result(r, m),
            MemberSeparator::Comma => {},
            MemberSeparator::Other => return Err(WebDriverBiDiSessionStatusResponseError::InvalidResultProjection),
        }
        ready = r;
        message = m;
        proof {
            assert(cursor.position() > j);
        }
    }
}

fn project_status(text: &str) -> (result: Result<(bool, Vec<u8>), WebDriverBiDiSessionStatusResponseError>)
    ensures
        match result {
            Ok((r2, m2)) => status_projection(encode_utf8(text@)) matches Ok((r, m)) && r2 == r
                && m2@ == m && valid_utf8(m),
            Err(e) => status_projection(encode_utf8(text@)) == Err::<
                (bool, Seq<u8>),
                WebDriverBiDiSessionStatusResponseError,
            >(e),
        },
{
    let mut cursor = ProjectionCursor::new(text);
    let ghost s = cursor.bytes();
    cursor.skip_whitespace();
    if !cursor.consume_byte(OPEN_BRACE) {
        return Err(WebDriverBiDiSessionStatusResponseError::InvalidResultProjection);
    }
    cursor.skip_whitespace();
    if cursor.consume_byte(CLOSE_BRACE) {
        return Err(WebDriverBiDiSessionStatusResponseError::InvalidResultProjection);
    }
    loop
        invariant
            cursor.bytes() == s,
            s == encode_utf8(text@),
            status_projection(s) == status_top_members(s, cursor.position()),
        decreases s.len() - cursor.position(),
    {
        let ghost j = cursor.position();
        proof {
            use_type_invariant(&cursor);
        }
        let key = match cursor.parse_member_name() {
            Some(key) => key,
            None => return Err(WebDriverBiDiSessionStatusResponseError::InvalidResultProjection),
        };
        proof {
            reveal_strlit("result");
        }
        if is_key(&key, "result") {
            return parse_result_object(&mut cursor);
        }
        if !cursor.skip_value() {
            return Err(WebDriverBiDiSessionStatusResponseError::InvalidResultProjection);
        }
        match cursor.member_separator() {
            MemberSeparator::Comma => {},
            _ => return Err(WebDriverBiDiSessionStatusResponseError::InvalidResultProjection),
        }
        proof {
            assert(cursor.position() > j);
        }
    }
}

impl StatusProjection {
    /// Project `result.ready` and `result.message` out of one document.
    pub fn parse(text: &str) -> (result: Result<Self, WebDriverBiDiSessionStatusResponseError>)
        ensures
            match result {
                Ok(p) => status_projection(encode_utf8(text@)) matches Ok((r, m)) && p.ready == r
                    && p.message@ == decode_utf8(m) && valid_utf8(m),
                Err(e) => status_projection(encode_utf8(text@)) == Err::<
                    (bool, Seq<u8>),
                    WebDriverBiDiSessionStatusResponseError,
                >(e),
            },
    {
        match project_status(text) {
            Ok((ready, message)) => match crate::text_message::string_from_utf8(message) {
                Some(message) => Ok(StatusProjection { ready, message }),
                None => {
                    proof {
                        assert(false);
                    }
                    Err(WebDriverBiDiSessionStatusResponseError::InvalidMessage)
                },
            },
            Err(e) => Err(e),
        }
    }
}

/// Admission of one `session.status` response document against the outstanding commands: the
/// outstanding commands afterwards, and the correlated identifier, readiness bit and message bytes
/// or the refusal.
///
/// The envelope is validated first; a success result is projected before correlation, so a
/// malformed body never consumes an identifier; a correlatable protocol error consumes its
/// identifier and is reported as a remote failure.
pub open spec fn status_response(s: Seq<u8>, outstanding: OutstandingCommands) -> (
    OutstandingCommands,
    Result<(u64, bool, Seq<u8>), WebDriverBiDiSessionStatusResponseError>,
) {
    match parse_envelope(s) {
        Err(e) => (outstanding, Err(WebDriverBiDiSessionStatusResponseError::Envelope { source: e })),
        Ok(envelope) => match envelope.kind {
            WebDriverBiDiJsonEnvelopeKind::Success => match status_projection(s) {
                Err(e) => (outstanding, Err(e)),
                Ok((ready, message)) => match correlate_spec(outstanding, envelope, (None, None)) {
                    Err(c) => (
                        outstanding,
                        Err(WebDriverBiDiSessionStatusResponseError::Correlation { source: c }),
                    ),
                    Ok((after, (id, _))) => (after, Ok((id, ready, message))),
                },
            },
            WebDriverBiDiJsonEnvelopeKind::Error => match correlate_spec(outstanding, envelope, (None, None)) {
                Err(c) => (outstanding, Err(WebDriverBiDiSessionStatusResponseError::Correlation { source: c })),
                Ok((after, (id, _))) => (
                    after,
                    Err(WebDriverBiDiSessionStatusResponseError::RemoteProtocolError { command_id: id }),
                ),
            },
            WebDriverBiDiJsonEnvelopeKind::Event => match correlate_spec(outstanding, envelope, (None, None)) {
                Err(c) => (outstanding, Err(WebDriverBiDiSessionStatusResponseError::Correlation { source: c })),
                Ok((after, (id, _))) => (after, Ok((id, false, Seq::<u8>::empty()))),
            },
        },
    }
}

/// Typed, correlated successful result of one WebDriver BiDi `session.status` command.
///
/// It keeps the correlated command id, the readiness bit and the bounded status message, the
/// message as UTF-8 bytes so that a debug rendering never shows it as text.
#[derive(Debug)]
pub struct WebDriverBiDiSessionStatusResult {
    command_id: u64,
    ready: bool,
    message: Vec<u8>,
}

impl View for WebDriverBiDiSessionStatusResult {
    type V = (u64, bool, Seq<u8>);

    closed spec fn view(&self) -> (u64, bool, Seq<u8>) {
        (self.command_id, self.ready, self.message@)
    }
}

impl WebDriverBiDiSessionStatusResult {
    /// The message is UTF-8 text.
    #[verifier::type_invariant]
    pub open spec fn message_is_text(&self) -> bool {
        valid_utf8(self@.2)
    }

    /// Parse one bounded local-end message and consume its exact outstanding command on success.
    pub fn parse_and_correlate(
        message: &WebDriverBiDiWebSocketTextMessage,
        correlation: &mut WebDriverBiDiCommandCorrelation,
    ) -> (result: Result<Self, WebDriverBiDiSessionStatusResponseError>)
        ensures
            ({
                let (after, expected) = status_response(message.bytes(), old(correlation)@);
                &&& final(correlation)@ == after
                &&& match expected {
                    Ok(v) => result matches Ok(r) && r@ == v,
                    Err(e) => result == Err::<Self, WebDriverBiDiSessionStatusResponseError>(e),
                }
            }),
    {
        let envelope = match WebDriverBiDiJsonEnvelope::parse(message) {
            Ok(envelope) => envelope,
            Err(source) => return Err(WebDriverBiDiSessionStatusResponseError::Envelope { source }),
        };
        match envelope.kind() {
            WebDriverBiDiJsonEnvelopeKind::Success => {
                let (ready, bytes) = match project_status(message.as_str()) {
                    Ok(p) => p,
                    Err(e) => return Err(e),
                };
                let completed = match correlation.correlate_response(&envelope) {
                    Ok(completed) => completed,
                    Err(source) => return Err(WebDriverBiDiSessionStatusResponseError::Correlation { source }),
                };
                Ok(WebDriverBiDiSessionStatusResult {
                    command_id: completed.command_id(),
                    ready,
                    message: bytes,
                })
            },
            WebDriverBiDiJsonEnvelopeKind::Error => {
                match correlation.correlate_response(&envelope) {
                    Ok(completed) => Err(WebDriverBiDiSessionStatusResponseError::RemoteProtocolError {
                        command_id: completed.command_id(),
                    }),
                    Err(source) => Err(WebDriverBiDiSessionStatusResponseError::Correlation { source }),
                }
            },
            WebDriverBiDiJsonEnvelopeKind::Event => {
                match correlation.correlate_response(&envelope) {
                    Ok(completed) => {
                        proof {
                            assert(valid_utf8(Seq::<u8>::empty())) by {
                                vstd::utf8::encode_utf8_valid_utf8(Seq::<char>::empty());
                                assert(encode_utf8(Seq::<char>::empty()) =~= Seq::<u8>::empty());
                            }
                        }
                        Ok(WebDriverBiDiSessionStatusResult {
                            command_id: completed.command_id(),
                            ready: false,
                            message: Vec::new(),
                        })
                    },
                    Err(source) => Err(WebDriverBiDiSessionStatusResponseError::Correlation { source }),
                }
            },
        }
    }

    /// Return the exact local command identifier consumed by this result.
    pub fn command_id(&self) -> (id: u64)
        ensures
            id == self@.0,
    {
        self.command_id
    }

    /// Return whether the remote end reports readiness to create a new session.
    pub fn ready(&self) -> (ready: bool)
        ensures
            ready == self@.1,
    {
        self.ready
    }

    /// Borrow the bounded implementation-defined readiness message.
    pub fn message(&self) -> (text: &str)
        ensures
            encode_utf8(text@) == self@.2,
    {
        proof {
            use_type_invariant(self);
        }
        match str_from_utf8(self.message.as_slice()) {
            Some(text) => {
                proof {
                    vstd::utf8::decode_utf8_encode_utf8(self@.2);
                }
                text
            },
            None => {
                proof {
                    assert(false);
                }
                ""
            },
        }
    }
}

} // verus!
