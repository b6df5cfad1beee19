//! The typed WebDriver BiDi `session.unsubscribe` command for one validated subscription.

use vstd::prelude::*;
use vstd::string::StringExecFns;
use vstd::utf8::*;

use crate::command_correlation::{
    registration_outcome, WebDriverBiDiCommandCorrelation, WebDriverBiDiCommandCorrelationError,
};
use crate::error_source::WebDriverBiDiErrorSource;
use crate::frame_error::WebDriverBiDiWebSocketFrameError;
use crate::json_envelope::MAX_WEBDRIVER_BIDI_JS_UINT;
use crate::json_text::{
    decimal_digits, decimal_text, encode_scalar_bytes, hex_digit_value, hex_digits_value, json_string, leading_ones_u8,
    string_rest, unicode_escape, byte_at, BACKSLASH, DIGIT_ZERO, LOWER_U, QUOTE,
};
use crate::projection_cursor::{lemma_encode_scalar_utf8, lemma_encode_utf8_concat};
use crate::subscription_response::{
    WebDriverBiDiNavigationCommittedSubscriptionResult, MAX_WEBDRIVER_BIDI_SUBSCRIPTION_IDENTIFIER_BYTES,
};
use crate::text_message::str_from_utf8;

verus! {

/// Fail-closed errors while constructing or sending one typed `session.unsubscribe` command.
#[derive(Debug)]
pub enum WebDriverBiDiNavigationCommittedUnsubscribeCommandError {
    /// The requested command identifier is outside WebDriver BiDi's `js-uint` range.
    CommandIdOutOfRange {
        /// Rejected command identifier.
        command_id: u64,
        /// Largest JavaScript-safe identifier admitted by this boundary.
        maximum_command_id: u64,
    },
    /// The bounded local correlation registry rejected the command before any frame was written.
    Correlation {
        /// Exact typed correlation failure.
        source: WebDriverBiDiCommandCorrelationError,
    },
    /// Writing the already-registered command frame failed and the transport is not reusable.
    FrameWrite {
        /// Exact typed bounded WebSocket frame-write failure.
        source: WebDriverBiDiWebSocketFrameError,
    },
}

impl WebDriverBiDiNavigationCommittedUnsubscribeCommandError {
    /// Stable operator-facing description.
    pub open spec fn description(&self) -> Seq<char> {
        match self {
            WebDriverBiDiNavigationCommittedUnsubscribeCommandError::CommandIdOutOfRange { .. } => "WebDriver BiDi session.unsubscribe command id is outside the js-uint range"@,
            WebDriverBiDiNavigationCommittedUnsubscribeCommandError::Correlation { .. } => "WebDriver BiDi session.unsubscribe command correlation was rejected"@,
            WebDriverBiDiNavigationCommittedUnsubscribeCommandError::FrameWrite { .. } => "WebDriver BiDi session.unsubscribe command frame write failed"@,
        }
    }

    /// Stable operator-facing description.
    pub fn to_string(&self) -> (text: String)
        ensures
            text@ == self.description(),
    {
        match self {
            WebDriverBiDiNavigationCommittedUnsubscribeCommandError::CommandIdOutOfRange { .. } => "WebDriver BiDi session.unsubscribe command id is outside the js-uint range".to_owned(),
            WebDriverBiDiNavigationCommittedUnsubscribeCommandError::Correlation { .. } => "WebDriver BiDi session.unsubscribe command correlation was rejected".to_owned(),
            WebDriverBiDiNavigationCommittedUnsubscribeCommandError::FrameWrite { .. } => "WebDriver BiDi session.unsubscribe command frame write failed".to_owned(),
        }
    }

    /// The wrapped correlation or frame failure, when this error wraps one.
    pub fn source(&self) -> (source: Option<WebDriverBiDiErrorSource<'_>>)
        ensures
            match self {
                WebDriverBiDiNavigationCommittedUnsubscribeCommandError::CommandIdOutOfRange { .. } => source is None,
                WebDriverBiDiNavigationCommittedUnsubscribeCommandError::Correlation { source: e } => source
                    == Some(WebDriverBiDiErrorSource::Correlation(e)),
                WebDriverBiDiNavigationCommittedUnsubscribeCommandError::FrameWrite { source: e } => source
                    == Some(WebDriverBiDiErrorSource::Frame(e)),
            },
    {
        match self {
            WebDriverBiDiNavigationCommittedUnsubscribeCommandError::CommandIdOutOfRange { .. } => None,
            WebDriverBiDiNavigationCommittedUnsubscribeCommandError::Correlation { source } => Some(WebDriverBiDiErrorSource::Correlation(source)),
            WebDriverBiDiNavigationCommittedUnsubscribeCommandError::FrameWrite { source } => Some(WebDriverBiDiErrorSource::Frame(source)),
        }
    }
}

/// The lower-case hexadecimal digit for `n < 16`.
pub open spec fn hex_char(n: int) -> char {
    if n == 0 {
        '0'
    } else if n == 1 {
        '1'
    } else if n == 2 {
        '2'
    } else if n == 3 {
        '3'
    } else if n == 4 {
        '4'
    } else if n == 5 {
        '5'
    } else if n == 6 {
        '6'
    } else if n == 7 {
        '7'
    } else if n == 8 {
        '8'
    } else if n == 9 {
        '9'
    } else if n == 10 {
        'a'
    } else if n == 11 {
        'b'
    } else if n == 12 {
        'c'
    } else if n == 13 {
        'd'
    } else if n == 14 {
        'e'
    } else {
        'f'
    }
}

/// The JSON string-content encoding of one character: quote, backslash and the C0 controls are
/// escaped, every other character stands for itself.
pub open spec fn escape_json_char(c: char) -> Seq<char> {
    if c == '"' {
        seq!['\\', '"']
    } else if c == '\\' {
        seq!['\\', '\\']
    } else if c == '\u{8}' {
        seq!['\\', 'b']
    } else if c == '\u{c}' {
        seq!['\\', 'f']
    } else if c == '\n' {
        seq!['\\', 'n']
    } else if c == '\r' {
        seq!['\\', 'r']
    } else if c == '\t' {
        seq!['\\', 't']
    } else if c <= '\u{1f}' {
        seq!['\\', 'u', '0', '0', hex_char(c as int / 16), hex_char(c as int % 16)]
    } else {
        seq![c]
    }
}

/// The JSON string-content encoding of a text.
pub open spec fn escape_json_text(text: Seq<char>) -> Seq<char>
    decreases text.len(),
{
    if text.len() == 0 {
        Seq::empty()
    } else {
        escape_json_text(text.drop_last()) + escape_json_char(text.last())
    }
}

/// The exact text of the `session.unsubscribe` command with identifier `command_id` for the
/// subscription `subscription_id`.
pub open spec fn unsubscribe_command_text(command_id: u64, subscription_id: Seq<char>) -> Seq<char> {
    "{\"id\":"@ + decode_utf8(decimal_digits(command_id as nat))
        + ",\"method\":\"session.unsubscribe\",\"params\":{\"subscriptions\":[\""@
        + escape_json_text(subscription_id) + "\"]}}"@
}

fn hex_digit_text(n: u32) -> (text: &'static str)
    requires
        n < 16,
    ensures
        text@ == seq![hex_char(n as int)],
{
    proof {
        reveal_strlit("0");
        reveal_strlit("1");
        reveal_strlit("2");
        reveal_strlit("3");
        reveal_strlit("4");
        reveal_strlit("5");
        reveal_strlit("6");
        reveal_strlit("7");
        reveal_strlit("8");
        reveal_strlit("9");
        reveal_strlit("a");
        reveal_strlit("b");
        reveal_strlit("c");
        reveal_strlit("d");
        reveal_strlit("e");
        reveal_strlit("f");
    }
    let text = if n == 0 {
        "0"
    } else if n == 1 {
        "1"
    } else if n == 2 {
        "2"
    } else if n == 3 {
        "3"
    } else if n == 4 {
        "4"
    } else if n == 5 {
        "5"
    } else if n == 6 {
        "6"
    } else if n == 7 {
        "7"
    } else if n == 8 {
        "8"
    } else if n == 9 {
        "9"
    } else if n == 10 {
        "a"
    } else if n == 11 {
        "b"
    } else if n == 12 {
        "c"
    } else if n == 13 {
        "d"
    } else if n == 14 {
        "e"
    } else {
        "f"
    };
    assert(text@ =~= seq![hex_char(n as int)]);
    text
}

proof fn lemma_single_char_utf8(c: char)
    ensures
        valid_utf8(encode_scalar(c as u32)),
        decode_utf8(encode_scalar(c as u32)) == seq![c],
{
    let chars = seq![c];
    assert(encode_utf8(chars) =~= encode_scalar(c as u32)) by {
        assert(chars.drop_first() =~= Seq::<char>::empty());
        assert(encode_utf8(chars.drop_first()) == Seq::<u8>::empty());
    }
    encode_utf8_valid_utf8(chars);
    encode_utf8_decode_utf8(chars);
}

fn push_escaped_char(output: &mut String, c: char)
    ensures
        final(output)@ == old(output)@ + escape_json_char(c),
{
    proof {
        reveal_strlit("\\\"");
        reveal_strlit("\\\\");
        reveal_strlit("\\b");
        reveal_strlit("\\f");
        reveal_strlit("\\n");
        reveal_strlit("\\r");
        reveal_strlit("\\t");
        reveal_strlit("\\u00");
    }
    if c == '"' {
        output.append("\\\"");
    } else if c == '\\' {
        output.append("\\\\");
    } else if c == '\u{8}' {
        output.append("\\b");
    } else if c == '\u{c}' {
        output.append("\\f");
    } else if c == '\n' {
        output.append("\\n");
    } else if c == '\r' {
        output.append("\\r");
    } else if c == '\t' {
        output.append("\\t");
    } else if c <= '\u{1f}' {
        let code = c as u32;
        let ghost before = output@;
        output.append("\\u00");
        output.append(hex_digit_text(code / 16));
        output.append(hex_digit_text(code % 16));
        assert(output@ =~= before + escape_json_char(c));
    } else {
        push_char(output, c);
        assert(output@ =~= old(output)@ + escape_json_char(c));
    }
}

/// Append the one character `c` to `output`.
pub fn push_char(output: &mut String, c: char)
    ensures
        final(output)@ == old(output)@.push(c),
{
    let mut bytes: Vec<u8> = Vec::new();
    proof {
        vstd::utf8::char_is_scalar(c);
    }
    encode_scalar_bytes(c as u32, &mut bytes);
    proof {
        lemma_single_char_utf8(c);
        assert(bytes@ =~= encode_scalar(c as u32));
    }
    match str_from_utf8(bytes.as_slice()) {
        Some(text) => {
            output.append(text);
            assert(output@ =~= old(output)@.push(c));
        },
        None => {
            proof {
                assert(false);
            }
        },
    }
}

/// The JSON string-content encoding of a text holds no raw control character: every C0 control of
/// the input becomes a printable escape sequence.
pub proof fn lemma_escaped_text_has_no_control_chars(text: Seq<char>)
    ensures
        forall|i: int| 0 <= i < escape_json_text(text).len() ==> escape_json_text(text)[i] > '\u{1f}',
    decreases text.len(),
{
    if text.len() > 0 {
        lemma_escaped_text_has_no_control_chars(text.drop_last());
        let c = text.last();
        let head = escape_json_text(text.drop_last());
        let tail = escape_json_char(c);
        if c <= '\u{1f}' && c != '\u{8}' && c != '\u{c}' && c != '\n' && c != '\r' && c != '\t' {
            assert(c as int / 16 < 16);
            assert(hex_char(c as int / 16) > '\u{1f}');
            assert(hex_char(c as int % 16) > '\u{1f}');
        }
        assert(forall|i: int| 0 <= i < tail.len() ==> tail[i] > '\u{1f}');
        assert forall|i: int| 0 <= i < escape_json_text(text).len() implies escape_json_text(text)[i] > '\u{1f}' by {
            if i < head.len() {
                assert(escape_json_text(text)[i] == head[i]);
            } else {
                assert(escape_json_text(text)[i] == tail[i - head.len()]);
            }
        }
    }
}

/// Append the JSON string-content encoding of `input` to `output`.
pub fn push_json_string_content(output: &mut String, input: &str)
    ensures
        final(output)@ == old(output)@ + escape_json_text(input@),
{
    let ghost start = output@;
    proof {
        broadcast use vstd::string::axiom_spec_iter;
        assert(escape_json_text(input@.take(0)) =~= Seq::<char>::empty());
    }
    for c in it: input.chars()
        invariant
            it.seq() == input@,
            output@ == start + escape_json_text(input@.take(it.index())),
    {
        let ghost k = it.index();
        push_escaped_char(output, c);
        proof {
            assert(input@.take(k + 1).drop_last() =~= input@.take(k));
        }
    }
    proof {
        assert(input@.take(input@.len() as int) =~= input@);
    }
}

/// The exact text of the `session.unsubscribe` command with identifier `command_id` for the
/// subscription `subscription_id`.
pub fn serialize_unsubscribe_command(command_id: u64, subscription_id: &str) -> (text: String)
    ensures
        text@ == unsubscribe_command_text(command_id, subscription_id@),
{
    let mut text = "{\"id\":".to_owned();
    let digits = decimal_text(command_id);
    text.append(digits.as_str());
    text.append(",\"method\":\"session.unsubscribe\",\"params\":{\"subscriptions\":[\"");
    push_json_string_content(&mut text, subscription_id);
    text.append("\"]}}");
    text
}

/// One bounded WebDriver BiDi `session.unsubscribe` command for a validated subscription.
///
/// The subscription identifier is kept as UTF-8 bytes beside its length, so that a debug rendering
/// shows the identifier's length and never its text.
#[derive(Debug)]
pub struct WebDriverBiDiNavigationCommittedUnsubscribeCommand {
    command_id: u64,
    subscription_id_len: usize,
    subscription_id: Vec<u8>,
}

impl View for WebDriverBiDiNavigationCommittedUnsubscribeCommand {
    type V = (u64, Seq<u8>);

    closed spec fn view(&self) -> (u64, Seq<u8>) {
        (self.command_id, self.subscription_id@)
    }
}

impl WebDriverBiDiNavigationCommittedUnsubscribeCommand {
    /// The identifier is in range, the subscription is bounded UTF-8 text, and its recorded length
    /// is exact.
    #[verifier::type_invariant]
    pub closed spec fn well_formed(&self) -> bool {
        &&& self.command_id <= MAX_WEBDRIVER_BIDI_JS_UINT
        &&& valid_utf8(self.subscription_id@)
        &&& self.subscription_id_len == self.subscription_id@.len()
    }

    /// Construct one unsubscribe command for an already validated subscription receipt.
    pub fn new(
        command_id: u64,
        subscription: &WebDriverBiDiNavigationCommittedSubscriptionResult,
    ) -> (result: Result<Self, WebDriverBiDiNavigationCommittedUnsubscribeCommandError>)
        ensures
            command_id <= MAX_WEBDRIVER_BIDI_JS_UINT ==> (result matches Ok(c) && c@ == (
                command_id,
                subscription@.1,
            )),
            command_id > MAX_WEBDRIVER_BIDI_JS_UINT ==> (result matches Err(
                WebDriverBiDiNavigationCommittedUnsubscribeCommandError::CommandIdOutOfRange {
                    command_id: rejected,
                    maximum_command_id,
                },
            ) && rejected == command_id && maximum_command_id == MAX_WEBDRIVER_BIDI_JS_UINT),
    {
        if command_id > MAX_WEBDRIVER_BIDI_JS_UINT {
            return Err(WebDriverBiDiNavigationCommittedUnsubscribeCommandError::CommandIdOutOfRange {
                command_id,
                maximum_command_id: MAX_WEBDRIVER_BIDI_JS_UINT,
            });
        }
        let text = subscription.subscription_id();
        let bytes = text.as_bytes();
        let mut owned: Vec<u8> = Vec::new();
        let mut k: usize = 0;
        while k < bytes.len()
            invariant
                k <= bytes@.len(),
                owned@ == bytes@.subrange(0, k as int),
            decreases bytes@.len() - k,
        {
            owned.push(bytes[k]);
            k = k + 1;
            assert(owned@ =~= bytes@.subrange(0, k as int));
        }
        assert(owned@ =~= bytes@);
        proof {
            encode_utf8_valid_utf8(text@);
        }
        Ok(WebDriverBiDiNavigationCommittedUnsubscribeCommand {
            command_id,
            subscription_id_len: owned.len(),
            subscription_id: owned,
        })
    }

    /// Return the exact local correlation identifier serialized for this command.
    pub fn command_id(&self) -> (id: u64)
        ensures
            id == self@.0,
    {
        self.command_id
    }

    /// The exact JSON text of this command.
    pub fn serialized(&self) -> (text: String)
        ensures
            text@ == unsubscribe_command_text(self@.0, decode_utf8(self@.1)),
    {
        proof {
            use_type_invariant(self);
        }
        match str_from_utf8(self.subscription_id.as_slice()) {
            Some(subscription_id) => serialize_unsubscribe_command(self.command_id, subscription_id),
            None => {
                proof {
                    assert(false);
                }
                String::new()
            },
        }
    }

    /// Register this command, then hand back the exact text to write as one text frame.
    ///
    /// Registration happens before anything is written, so a refused registration writes nothing.
    /// Once registered, the identifier stays outstanding until a correlated response or an explicit
    /// retirement, even if the frame write later fails.
    pub fn send(self, correlation: &mut WebDriverBiDiCommandCorrelation) -> (result: Result<
        String,
        WebDriverBiDiNavigationCommittedUnsubscribeCommandError,
    >)
        ensures
            registration_outcome(old(correlation)@, final(correlation)@, self@.0, (None, None), match result {
                Ok(_) => Ok(()),
                Err(WebDriverBiDiNavigationCommittedUnsubscribeCommandError::Correlation { source }) => Err(source),
                Err(_) => Err(WebDriverBiDiCommandCorrelationError::CommandIdOutOfRange),
            }),
            result is Err ==> result matches Err(
                WebDriverBiDiNavigationCommittedUnsubscribeCommandError::Correlation { .. },
            ),
            result matches Ok(text) ==> text@ == unsubscribe_command_text(self@.0, decode_utf8(self@.1)),
    {
        match correlation.register_command(self.command_id) {
            Ok(()) => Ok(self.serialized()),
            Err(source) => Err(WebDriverBiDiNavigationCommittedUnsubscribeCommandError::Correlation { source }),
        }
    }
}

proof fn lemma_lead_byte_counts_width(c: char)
    requires
        c as u32 >= 0x80,
    ensures
        encode_scalar(c as u32).len() == leading_ones_u8(encode_scalar(c as u32)[0]),
        encode_scalar(c as u32)[0] >= 0xc0,
{
    let v = c as u32;
    vstd::utf8::char_is_scalar(c);
    if has_width_2_encoding(v) {
        assert(0xc0 <= (0xC0 | ((v >> 6) & 0x1F) as u8) <= 0xdf) by (bit_vector);
    } else if has_width_3_encoding(v) {
        assert(0xe0 <= (0xE0 | ((v >> 12) & 0x0F) as u8) <= 0xef) by (bit_vector);
    } else {
        assert(0xf0 <= (0xF0 | ((v >> 18) & 0x7) as u8) <= 0xf7) by (bit_vector);
    }
}

proof fn lemma_hex_char_value(n: int)
    requires
        0 <= n < 16,
    ensures
        '\0' <= hex_char(n) <= '\u{7f}',
        hex_digit_value(hex_char(n) as u8) == Some(n as u16),
{
}

proof fn lemma_single_char_encoding(c: char)
    ensures
        encode_utf8(seq![c]) == encode_scalar(c as u32),
{
    assert(seq![c].drop_first() =~= Seq::<char>::empty());
    assert(encode_utf8(seq![c].drop_first()) =~= Seq::<u8>::empty());
    assert(encode_scalar(c as u32) + Seq::<u8>::empty() =~= encode_scalar(c as u32));
}

proof fn lemma_ascii_chars_bytes(chars: Seq<char>)
    requires
        is_ascii_chars(chars),
    ensures
        encode_utf8(chars).len() == chars.len(),
        forall|i: int| 0 <= i < chars.len() ==> encode_utf8(chars)[i] == chars[i] as u8,
{
    is_ascii_chars_encode_utf8(chars);
}

proof fn lemma_escaped_char_reads_back(s: Seq<u8>, j: int, acc: Seq<u8>, c: char)
    requires
        0 <= j,
        j + encode_utf8(escape_json_char(c)).len() <= s.len(),
        s.subrange(j, j + encode_utf8(escape_json_char(c)).len()) == encode_utf8(escape_json_char(c)),
    ensures
        string_rest(s, j, acc) == string_rest(
            s,
            j + encode_utf8(escape_json_char(c)).len(),
            acc + encode_utf8(seq![c]),
        ),
{
    let e = escape_json_char(c);
    let bytes = encode_utf8(e);
    lemma_single_char_encoding(c);
    assert(forall|i: int| 0 <= i < bytes.len() ==> s[j + i] == #[trigger] bytes[i]) by {
        assert forall|i: int| 0 <= i < bytes.len() implies s[j + i] == bytes[i] by {
            assert(s.subrange(j, j + bytes.len())[i] == s[j + i]);
        }
    }
    if c == '"' || c == '\\' || c == '\u{8}' || c == '\u{c}' || c == '\n' || c == '\r' || c == '\t' {
        lemma_ascii_chars_bytes(e);
        lemma_ascii_chars_bytes(seq![c]);
        assert(e.len() == 2 && e[0] == '\\');
        assert(bytes[0] == e[0] as u8);
        assert(bytes.len() == 2);
        assert(s[j] == BACKSLASH);
        assert(bytes[1] == e[1] as u8);
        assert(s[j + 1] == e[1] as u8);
        assert(encode_utf8(seq![c]) =~= seq![c as u8]);
    } else if c <= '\u{1f}' {
        let hi = c as int / 16;
        let lo = c as int % 16;
        lemma_hex_char_value(hi);
        lemma_hex_char_value(lo);
        lemma_ascii_chars_bytes(e);
        lemma_ascii_chars_bytes(seq![c]);
        assert(bytes.len() == 6);
        assert(e =~= seq!['\\', 'u', '0', '0', hex_char(hi), hex_char(lo)]);
        assert(bytes[0] == e[0] as u8 && bytes[1] == e[1] as u8 && bytes[2] == e[2] as u8);
        assert(bytes[3] == e[3] as u8 && bytes[4] == e[4] as u8 && bytes[5] == e[5] as u8);
        assert(s[j] == BACKSLASH);
        assert(s[j + 1] == LOWER_U);
        assert(s[j + 4] == hex_char(hi) as u8);
        assert(s[j + 5] == hex_char(lo) as u8);
        assert(s[j + 2] == DIGIT_ZERO && s[j + 3] == DIGIT_ZERO);
        assert(byte_at(s, j + 2) == Some(DIGIT_ZERO));
        assert(byte_at(s, j + 3) == Some(DIGIT_ZERO));
        assert(byte_at(s, j + 4) == Some(hex_char(hi) as u8));
        assert(byte_at(s, j + 5) == Some(hex_char(lo) as u8));
        assert(hex_digit_value(DIGIT_ZERO) == Some(0u16));
        assert(hex_digits_value(s, j + 2, 0) == Some(0nat));
        assert(hex_digits_value(s, j + 2, 1) == Some(0nat));
        assert(hex_digits_value(s, j + 2, 2) == Some(0nat));
        assert(hex_digits_value(s, j + 2, 3) == Some(hi as nat));
        assert(hex_digits_value(s, j + 2, 4) == Some((hi * 16 + lo) as nat));
        assert(hi * 16 + lo == c as int);
        assert(unicode_escape(s, j + 2) == Some((j + 6, c as u32)));
        assert(encode_utf8(seq![c]) =~= seq![c as u8]);
        assert(encode_scalar(c as u32) =~= seq![c as u8]);
    } else if c <= '\u{7f}' {
        lemma_ascii_chars_bytes(e);
        assert(bytes.len() == 1);
        assert(e[0] == c);
        assert(bytes[0] == c as u8);
        assert(s[j] == c as u8);
        assert(encode_utf8(seq![c]) =~= seq![c as u8]);
        assert(acc.push(c as u8) =~= acc + seq![c as u8]);
    } else {
        lemma_lead_byte_counts_width(c);
        assert(e =~= seq![c]);
        assert(s.subrange(j, j + bytes.len()) == bytes);
    }
}

proof fn lemma_escaped_text_reads_back(s: Seq<u8>, j: int, acc: Seq<u8>, text: Seq<char>)
    requires
        0 <= j,
        j + encode_utf8(escape_json_text(text)).len() <= s.len(),
        s.subrange(j, j + encode_utf8(escape_json_text(text)).len()) == encode_utf8(escape_json_text(text)),
    ensures
        string_rest(s, j, acc) == string_rest(
            s,
            j + encode_utf8(escape_json_text(text)).len(),
            acc + encode_utf8(text),
        ),
    decreases text.len(),
{
    if text.len() == 0 {
        assert(acc + encode_utf8(text) =~= acc);
    } else {
        let prefix = text.drop_last();
        let c = text.last();
        let head = encode_utf8(escape_json_text(prefix));
        let tail = encode_utf8(escape_json_char(c));
        lemma_encode_utf8_concat(escape_json_text(prefix), escape_json_char(c));
        assert(encode_utf8(escape_json_text(text)) == head + tail);
        assert(s.subrange(j, j + head.len()) =~= head) by {
            assert(s.subrange(j, j + head.len()) =~= s.subrange(j, j + head.len() + tail.len()).subrange(0, head.len() as int));
        }
        lemma_escaped_text_reads_back(s, j, acc, prefix);
        assert(s.subrange(j + head.len(), j + head.len() + tail.len()) =~= tail) by {
            assert(s.subrange(j + head.len(), j + head.len() + tail.len()) =~= s.subrange(j, j + head.len() + tail.len()).subrange(head.len() as int, head.len() + tail.len() as int));
        }
        lemma_escaped_char_reads_back(s, j + head.len(), acc + encode_utf8(prefix), c);
        assert(text =~= prefix + seq![c]);
        lemma_encode_utf8_concat(prefix, seq![c]);
        assert(acc + encode_utf8(prefix) + encode_utf8(seq![c]) =~= acc + encode_utf8(text));
    }
}

/// Escaping round-trips: what `push_json_string_content` appends for a text, put between two
/// quotes and read back with the JSON string grammar (which `json_text::parse_string` decides
/// exactly), yields exactly the text's UTF-8 bytes and ends just after the closing quote.
pub proof fn lemma_escaped_text_reads_back_exactly(text: Seq<char>)
    ensures
        ({
            let s = encode_utf8(seq!['"'] + escape_json_text(text) + seq!['"']);
            json_string(s, 0) == Some((s.len() as int, encode_utf8(text)))
        }),
{
    let body = encode_utf8(escape_json_text(text));
    lemma_encode_utf8_concat(seq!['"'] + escape_json_text(text), seq!['"']);
    lemma_encode_utf8_concat(seq!['"'], escape_json_text(text));
    lemma_ascii_chars_bytes(seq!['"']);
    let quote = encode_utf8(seq!['"']);
    assert(quote =~= seq![QUOTE]);
    let s = encode_utf8(seq!['"'] + escape_json_text(text) + seq!['"']);
    assert(s == quote + body + quote);
    assert(s.subrange(1, 1 + body.len() as int) =~= body);
    lemma_escaped_text_reads_back(s, 1, seq![], text);
    assert(seq![] + encode_utf8(text) =~= encode_utf8(text));
    assert(s[1 + body.len() as int] == QUOTE);
}

} // verus!
