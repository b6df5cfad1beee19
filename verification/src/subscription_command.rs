//! The text of the typed `session.subscribe` command for committed navigations in one context,
//! and the correlation bookkeeping after a failed command write.

use vstd::prelude::*;
use vstd::string::StringExecFns;
use vstd::utf8::*;

use crate::command_correlation::{
    registration_outcome, WebDriverBiDiCommandCorrelation, WebDriverBiDiCommandCorrelationError, WebDriverBiDiCommandKind,
};
use crate::error_source::WebDriverBiDiErrorSource;
use crate::json_envelope::MAX_WEBDRIVER_BIDI_JS_UINT;
use crate::text_message::str_from_utf8;
use crate::frame_error::WebDriverBiDiWebSocketFrameError;
use crate::json_text::{decimal_digits, decimal_text};
use crate::json_text::json_string;
use crate::unsubscribe_command::{escape_json_text, lemma_escaped_text_reads_back_exactly, push_char};

verus! {

/// The quoting of one character inside the serialized external context identifier: quote and
/// backslash are escaped, every other character stands for itself.
pub open spec fn quote_context_char(c: char) -> Seq<char> {
    if c == '"' {
        seq!['\\', '"']
    } else if c == '\\' {
        seq!['\\', '\\']
    } else {
        seq![c]
    }
}

/// The quoting of an external context identifier, without its surrounding quotes.
pub open spec fn quote_context_text(text: Seq<char>) -> Seq<char>
    decreases text.len(),
{
    if text.len() == 0 {
        Seq::empty()
    } else {
        quote_context_text(text.drop_last()) + quote_context_char(text.last())
    }
}

/// The exact text of the `session.subscribe` command with identifier `command_id` for committed
/// navigations in the external context `external_context`.
pub open spec fn subscribe_command_text(command_id: u64, external_context: Seq<char>) -> Seq<char> {
    "{\"id\":"@ + decode_utf8(decimal_digits(command_id as nat))
        + ",\"method\":\"session.subscribe\",\"params\":{\"events\":[\"browsingContext.navigationCommitted\"],\"contexts\":[\""@
        + quote_context_text(external_context) + "\"]}}"@
}

/// Append `value`, quoted, to `target`.
pub fn push_quoted_context(target: &mut String, value: &str)
    ensures
        final(target)@ == old(target)@ + "\""@ + quote_context_text(value@) + "\""@,
{
    proof {
        reveal_strlit("\"");
        reveal_strlit("\\\"");
        reveal_strlit("\\\\");
        broadcast use vstd::string::axiom_spec_iter;
        assert(quote_context_text(value@.take(0)) =~= Seq::<char>::empty());
    }
    target.append("\"");
    let ghost start = target@;
    for c in it: value.chars()
        invariant
            it.seq() == value@,
            target@ == start + quote_context_text(value@.take(it.index())),
    {
        let ghost k = it.index();
        let ghost before = target@;
        proof {
            reveal_strlit("\\\"");
            reveal_strlit("\\\\");
        }
        if c == '"' {
            target.append("\\\"");
        } else if c == '\\' {
            target.append("\\\\");
        } else {
            push_char(target, c);
        }
        proof {
            assert(target@ =~= before + quote_context_char(c));
            assert(value@.take(k + 1).drop_last() =~= value@.take(k));
        }
    }
    proof {
        assert(value@.take(value@.len() as int) =~= value@);
    }
    target.append("\"");
}

/// The exact text of the `session.subscribe` command with identifier `command_id` for committed
/// navigations in the external context `external_context`.
pub fn serialize_subscribe_command(command_id: u64, external_context: &str) -> (text: String)
    ensures
        text@ == subscribe_command_text(command_id, external_context@),
{
    let mut text = "{\"id\":".to_owned();
    let digits = decimal_text(command_id);
    text.append(digits.as_str());
    text.append(
        ",\"method\":\"session.subscribe\",\"params\":{\"events\":[\"browsingContext.navigationCommitted\"],\"contexts\":[",
    );
    push_quoted_context(&mut text, external_context);
    text.append("]}}");
    proof {
        reveal_strlit("\"");
        reveal_strlit("]}}");
        reveal_strlit("\"]}}");
        reveal_strlit(",\"method\":\"session.subscribe\",\"params\":{\"events\":[\"browsingContext.navigationCommitted\"],\"contexts\":[");
        reveal_strlit(",\"method\":\"session.subscribe\",\"params\":{\"events\":[\"browsingContext.navigationCommitted\"],\"contexts\":[\"");
        assert(text@ =~= subscribe_command_text(command_id, external_context@));
    }
    text
}

/// Fail-closed failures while constructing or sending one committed-navigation subscription.
#[derive(Debug)]
pub enum WebDriverBiDiNavigationCommittedSubscriptionCommandError {
    /// The requested command identifier is outside WebDriver BiDi's `js-uint` range.
    CommandIdOutOfRange {
        /// Rejected command identifier.
        command_id: u64,
        /// Largest JavaScript-safe identifier admitted by this boundary.
        maximum_command_id: u64,
    },
    /// The bounded local correlation registry rejected the command before any frame was written.
    Correlation {
        /// Exact typed correlation failure.
        source: WebDriverBiDiCommandCorrelationError,
    },
    /// Writing the already-registered command frame failed and the transport is not reusable.
    FrameWrite {
        /// Exact typed bounded WebSocket frame-write failure.
        source: WebDriverBiDiWebSocketFrameError,
    },
}

impl WebDriverBiDiNavigationCommittedSubscriptionCommandError {
    /// Stable operator-facing description.
    pub open spec fn description(&self) -> Seq<char> {
        match self {
            WebDriverBiDiNavigationCommittedSubscriptionCommandError::CommandIdOutOfRange { .. } => "WebDriver BiDi navigation subscription command id is outside the js-uint range"@,
            WebDriverBiDiNavigationCommittedSubscriptionCommandError::Correlation { .. } => "WebDriver BiDi navigation subscription command correlation was rejected"@,
            WebDriverBiDiNavigationCommittedSubscriptionCommandError::FrameWrite { .. } => "WebDriver BiDi navigation subscription command frame write failed"@,
        }
    }

    /// Stable operator-facing description.
    pub fn to_string(&self) -> (text: String)
        ensures
            text@ == self.description(),
    {
        match self {
            WebDriverBiDiNavigationCommittedSubscriptionCommandError::CommandIdOutOfRange { .. } => "WebDriver BiDi navigation subscription command id is outside the js-uint range".to_owned(),
            WebDriverBiDiNavigationCommittedSubscriptionCommandError::Correlation { .. } => "WebDriver BiDi navigation subscription command correlation was rejected".to_owned(),
            WebDriverBiDiNavigationCommittedSubscriptionCommandError::FrameWrite { .. } => "WebDriver BiDi navigation subscription command frame write failed".to_owned(),
        }
    }

    /// The wrapped correlation or frame failure, when this error wraps one.
    pub fn source(&self) -> (source: Option<WebDriverBiDiErrorSource<'_>>)
        ensures
            match self {
                WebDriverBiDiNavigationCommittedSubscriptionCommandError::CommandIdOutOfRange { .. } => source is None,
                WebDriverBiDiNavigationCommittedSubscriptionCommandError::Correlation { source: e } => source
                    == Some(WebDriverBiDiErrorSource::Correlation(e)),
                WebDriverBiDiNavigationCommittedSubscriptionCommandError::FrameWrite { source: e } => source
                    == Some(WebDriverBiDiErrorSource::Frame(e)),
            },
    {
        match self {
            WebDriverBiDiNavigationCommittedSubscriptionCommandError::CommandIdOutOfRange { .. } => None,
            WebDriverBiDiNavigationCommittedSubscriptionCommandError::Correlation { source } => Some(WebDriverBiDiErrorSource::Correlation(source)),
            WebDriverBiDiNavigationCommittedSubscriptionCommandError::FrameWrite { source } => Some(WebDriverBiDiErrorSource::Frame(source)),
        }
    }
}

fn owned_text_bytes(text: &str) -> (bytes: Vec<u8>)
    ensures
        bytes@ == encode_utf8(text@),
{
    let source = text.as_bytes();
    let mut owned: Vec<u8> = Vec::new();
    let mut k: usize = 0;
    while k < source.len()
        invariant
            k <= source@.len(),
            owned@ == source@.subrange(0, k as int),
        decreases source@.len() - k,
    {
        owned.push(source[k]);
        k = k + 1;
        assert(owned@ =~= source@.subrange(0, k as int));
    }
    assert(owned@ =~= source@);
    owned
}

/// The command-side binding of one committed-navigation subscription: the command identifier and
/// the external context the command names, captured before the command is sent.
///
/// The external context is kept as UTF-8 bytes beside its length, so that a debug rendering shows
/// the length and never the text.
#[derive(Debug)]
pub struct WebDriverBiDiNavigationCommittedSubscriptionBinding {
    command_id: u64,
    external_context_bytes: usize,
    external_context: Vec<u8>,
}

impl View for WebDriverBiDiNavigationCommittedSubscriptionBinding {
    type V = (u64, Seq<u8>);

    closed spec fn view(&self) -> (u64, Seq<u8>) {
        (self.command_id, self.external_context@)
    }
}

impl WebDriverBiDiNavigationCommittedSubscriptionBinding {
    /// The context is UTF-8 text and its recorded length is exact.
    #[verifier::type_invariant]
    pub closed spec fn well_formed(&self) -> bool {
        &&& valid_utf8(self.external_context@)
        &&& self.external_context_bytes == self.external_context@.len()
    }

    /// The exact local command identifier this binding was captured from.
    pub fn command_id(&self) -> (id: u64)
        ensures
            id == self@.0,
    {
        self.command_id
    }

    /// The external context identifier the subscription command names.
    pub fn external_context(&self) -> (context: &str)
        ensures
            encode_utf8(context@) == self@.1,
    {
        proof {
            use_type_invariant(self);
        }
        match str_from_utf8(self.external_context.as_slice()) {
            Some(text) => {
                proof {
                    decode_utf8_encode_utf8(self@.1);
                }
                text
            },
            None => {
                proof {
                    assert(false);
                }
                ""
            },
        }
    }
}

/// One context-scoped `session.subscribe` command for `browsingContext.navigationCommitted`.
#[derive(Debug)]
pub struct WebDriverBiDiNavigationCommittedSubscriptionCommand {
    command_id: u64,
    external_context: String,
}

impl View for WebDriverBiDiNavigationCommittedSubscriptionCommand {
    type V = (u64, Seq<char>);

    closed spec fn view(&self) -> (u64, Seq<char>) {
        (self.command_id, self.external_context@)
    }
}

impl WebDriverBiDiNavigationCommittedSubscriptionCommand {
    /// Every command identifier is within the `js-uint` range.
    #[verifier::type_invariant]
    pub closed spec fn in_range(&self) -> bool {
        self.command_id <= MAX_WEBDRIVER_BIDI_JS_UINT
    }

    /// Construct one subscription for committed navigations in the external context
    /// `external_context`, with a JavaScript-safe correlation identifier.
    pub fn new(command_id: u64, external_context: &str) -> (result: Result<
        Self,
        WebDriverBiDiNavigationCommittedSubscriptionCommandError,
    >)
        ensures
            command_id <= MAX_WEBDRIVER_BIDI_JS_UINT ==> (result matches Ok(c) && c@ == (command_id, external_context@)),
            command_id > MAX_WEBDRIVER_BIDI_JS_UINT ==> (result matches Err(
                WebDriverBiDiNavigationCommittedSubscriptionCommandError::CommandIdOutOfRange {
                    command_id: rejected,
                    maximum_command_id,
                },
            ) && rejected == command_id && maximum_command_id == MAX_WEBDRIVER_BIDI_JS_UINT),
    {
        if command_id > MAX_WEBDRIVER_BIDI_JS_UINT {
            return Err(WebDriverBiDiNavigationCommittedSubscriptionCommandError::CommandIdOutOfRange {
                command_id,
                maximum_command_id: MAX_WEBDRIVER_BIDI_JS_UINT,
            });
        }
        Ok(WebDriverBiDiNavigationCommittedSubscriptionCommand { command_id, external_context: external_context.to_owned() })
    }

    /// The exact local correlation identifier serialized by this command.
    pub fn command_id(&self) -> (id: u64)
        ensures
            id == self@.0,
    {
        self.command_id
    }

    /// The external context identifier serialized by this command.
    pub fn external_context(&self) -> (context: &str)
        ensures
            context@ == self@.1,
    {
        self.external_context.as_str()
    }

    /// Capture the command-side binding that a correlated subscription receipt must later match.
    pub fn admission_binding(&self) -> (binding: WebDriverBiDiNavigationCommittedSubscriptionBinding)
        ensures
            binding@ == (self@.0, encode_utf8(self@.1)),
    {
        let external_context = owned_text_bytes(self.external_context.as_str());
        proof {
            encode_utf8_valid_utf8(self@.1);
        }
        WebDriverBiDiNavigationCommittedSubscriptionBinding {
            command_id: self.command_id,
            external_context_bytes: external_context.len(),
            external_context,
        }
    }

    /// The exact JSON text of this command.
    pub fn serialized(&self) -> (text: String)
        ensures
            text@ == subscribe_command_text(self@.0, self@.1),
    {
        serialize_subscribe_command(self.command_id, self.external_context.as_str())
    }

    /// Register this command and return the exact text to write.
    ///
    /// Registration happens before anything is written, so a refused registration writes nothing.
    pub fn send(self, correlation: &mut WebDriverBiDiCommandCorrelation) -> (result: Result<
        String,
        WebDriverBiDiNavigationCommittedSubscriptionCommandError,
    >)
        ensures
            registration_outcome(old(correlation)@, final(correlation)@, self@.0, (None, None), match result {
                Ok(_) => Ok(()),
                Err(WebDriverBiDiNavigationCommittedSubscriptionCommandError::Correlation { source }) => Err(source),
                Err(_) => Err(WebDriverBiDiCommandCorrelationError::CommandIdOutOfRange),
            }),
            result is Err ==> result matches Err(WebDriverBiDiNavigationCommittedSubscriptionCommandError::Correlation { .. }),
            result matches Ok(text) ==> text@ == subscribe_command_text(self@.0, self@.1),
    {
        match correlation.register_command(self.command_id) {
            Ok(()) => Ok(self.serialized()),
            Err(source) => Err(WebDriverBiDiNavigationCommittedSubscriptionCommandError::Correlation { source }),
        }
    }
}

/// Settle the correlation registry after writing a registered subscription command failed.
///
/// A malformed-frame refusal proves that no byte of the frame was written, so the subscription is
/// retired again; after any other failure emission may have begun, and the identifier stays
/// outstanding.
pub fn settle_failed_subscription_write(
    correlation: &mut WebDriverBiDiCommandCorrelation,
    command_id: u64,
    failure: &WebDriverBiDiWebSocketFrameError,
)
    ensures
        (failure is MalformedFrame && old(correlation)@.contains_key(command_id) && old(correlation)@[command_id].0
            == Some(WebDriverBiDiCommandKind::NavigationCommittedSubscription)) ==> final(correlation)@ == old(
            correlation,
        )@.remove(command_id),
        !(failure is MalformedFrame && old(correlation)@.contains_key(command_id) && old(correlation)@[command_id].0
            == Some(WebDriverBiDiCommandKind::NavigationCommittedSubscription)) ==> final(correlation)@ == old(
            correlation,
        )@,
{
    if let WebDriverBiDiWebSocketFrameError::MalformedFrame { .. } = failure {
        let _retirement = correlation.retire_command_for(
            command_id,
            WebDriverBiDiCommandKind::NavigationCommittedSubscription,
        );
    }
}

proof fn lemma_context_quoting_is_json_escaping(text: Seq<char>)
    requires
        forall|i: int| 0 <= i < text.len() ==> text[i] > '\u{1f}',
    ensures
        quote_context_text(text) == escape_json_text(text),
    decreases text.len(),
{
    if text.len() > 0 {
        lemma_context_quoting_is_json_escaping(text.drop_last());
    }
}

/// For an external context identifier free of control characters, reading back the quoted context
/// of a `session.subscribe` command with the JSON string grammar yields exactly the identifier's
/// UTF-8 bytes.
pub proof fn lemma_quoted_context_reads_back_exactly(context: Seq<char>)
    requires
        forall|i: int| 0 <= i < context.len() ==> context[i] > '\u{1f}',
    ensures
        ({
            let s = encode_utf8(seq!['"'] + quote_context_text(context) + seq!['"']);
            json_string(s, 0) == Some((s.len() as int, encode_utf8(context)))
        }),
{
    lemma_context_quoting_is_json_escaping(context);
    lemma_escaped_text_reads_back_exactly(context);
}

} // verus!
