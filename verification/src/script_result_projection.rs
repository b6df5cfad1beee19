//! Bounded projection of one `script.EvaluateResult` out of a successful `script.callFunction`
//! response: member scanning with resource budgets, JSON string decoding, and the string
//! `RemoteValue` the text-value observation needs.

use vstd::prelude::*;
use vstd::string::StringExecFns;
use vstd::utf8::*;

use crate::json_envelope::lit;
use crate::text_policy::MAX_WEBDRIVER_BIDI_TYPE_TEXT_BYTES;
use crate::json_text::{
    byte_at, escape_sequence, lemma_escape_bounds, leading_ones_u8, parse_escape, skip_whitespace,
    ws_end, BACKSLASH, CLOSE_BRACE, CLOSE_BRACKET, COLON, COMMA, OPEN_BRACE, OPEN_BRACKET, QUOTE,
};

verus! {

/// Largest number of members read from one command-specific result object.
pub const MAX_SCRIPT_RESULT_OBJECT_MEMBERS: usize = 64;

/// Largest decoded member name read from a command-specific result object, in bytes.
pub const MAX_SCRIPT_RESULT_MEMBER_NAME_BYTES: usize = 128;

/// Largest nesting depth scanned inside a command-specific result value.
pub const MAX_SCRIPT_RESULT_NESTING_DEPTH: usize = 64;

/// Non-sensitive structural failures while projecting a successful `script.callFunction` result.
#[derive(Clone, Copy, Debug, PartialEq, Eq)]
pub enum WebDriverBiDiTextValueObservationProjectionError {
    /// An object required by the command-specific result contract was absent or malformed.
    InvalidObject {
        /// Stable non-sensitive protocol member path.
        member: &'static str,
    },
    /// A required command-specific member was absent.
    MissingMember {
        /// Stable non-sensitive protocol member path.
        member: &'static str,
    },
    /// A command-specific object repeated a member name.
    DuplicateMember,
    /// A command-specific object exceeded the member-count budget.
    TooManyMembers,
    /// A command-specific member name exceeded the byte budget.
    MemberNameTooLong,
    /// A JSON string could not be projected without violating the bounded decoder contract.
    InvalidString,
    /// The `script.EvaluateResult` discriminator was neither `success` nor `exception`.
    UnsupportedScriptResultType,
    /// A successful script RemoteValue was not a string value.
    UnsupportedRemoteValueType,
    /// The observed page string exceeded the text-input byte budget.
    ObservedTextTooLong,
    /// A nested value exceeded the projection depth budget.
    NestingTooDeep,
    /// A command-specific value ended unexpectedly.
    InvalidValue,
}

impl WebDriverBiDiTextValueObservationProjectionError {
    /// Stable operator-facing description.
    pub open spec fn description(&self) -> Seq<char> {
        match self {
            WebDriverBiDiTextValueObservationProjectionError::InvalidObject { member } => "invalid object at "@ + member@,
            WebDriverBiDiTextValueObservationProjectionError::MissingMember { member } => "missing member "@ + member@,
            WebDriverBiDiTextValueObservationProjectionError::DuplicateMember => "duplicate command-specific result member"@,
            WebDriverBiDiTextValueObservationProjectionError::TooManyMembers => "command-specific result object has too many members"@,
            WebDriverBiDiTextValueObservationProjectionError::MemberNameTooLong => "command-specific result member name is too long"@,
            WebDriverBiDiTextValueObservationProjectionError::InvalidString => "invalid command-specific JSON string"@,
            WebDriverBiDiTextValueObservationProjectionError::UnsupportedScriptResultType => "unsupported script result type"@,
            WebDriverBiDiTextValueObservationProjectionError::UnsupportedRemoteValueType => "text-value observation did not return a string RemoteValue"@,
            WebDriverBiDiTextValueObservationProjectionError::ObservedTextTooLong => "observed text-value postcondition exceeds the local byte budget"@,
            WebDriverBiDiTextValueObservationProjectionError::NestingTooDeep => "command-specific result nesting is too deep"@,
            WebDriverBiDiTextValueObservationProjectionError::InvalidValue => "invalid command-specific result value"@,
        }
    }

    /// Stable operator-facing description.
    pub fn to_string(&self) -> (text: String)
        ensures
            text@ == self.description(),
    {
        match self {
            WebDriverBiDiTextValueObservationProjectionError::InvalidObject { member } => {
                let mut text = "invalid object at ".to_owned();
                text.append(member);
                text
            },
            WebDriverBiDiTextValueObservationProjectionError::MissingMember { member } => {
                let mut text = "missing member ".to_owned();
                text.append(member);
                text
            },
            WebDriverBiDiTextValueObservationProjectionError::DuplicateMember => "duplicate command-specific result member".to_owned(),
            WebDriverBiDiTextValueObservationProjectionError::TooManyMembers => "command-specific result object has too many members".to_owned(),
            WebDriverBiDiTextValueObservationProjectionError::MemberNameTooLong => "command-specific result member name is too long".to_owned(),
            WebDriverBiDiTextValueObservationProjectionError::InvalidString => "invalid command-specific JSON string".to_owned(),
            WebDriverBiDiTextValueObservationProjectionError::UnsupportedScriptResultType => "unsupported script result type".to_owned(),
            WebDriverBiDiTextValueObservationProjectionError::UnsupportedRemoteValueType => "text-value observation did not return a string RemoteValue".to_owned(),
            WebDriverBiDiTextValueObservationProjectionError::ObservedTextTooLong => "observed text-value postcondition exceeds the local byte budget".to_owned(),
            WebDriverBiDiTextValueObservationProjectionError::NestingTooDeep => "command-specific result nesting is too deep".to_owned(),
            WebDriverBiDiTextValueObservationProjectionError::InvalidValue => "invalid command-specific result value".to_owned(),
        }
    }

    /// No projection error wraps another error.
    pub fn source(&self) -> (source: Option<&WebDriverBiDiTextValueObservationProjectionError>)
        ensures
            source is None,
    {
        None
    }
}

/// The refusal for a malformed string.
pub open spec fn invalid_string() -> WebDriverBiDiTextValueObservationProjectionError {
    WebDriverBiDiTextValueObservationProjectionError::InvalidString
}

/// The refusal for a malformed value.
pub open spec fn invalid_value() -> WebDriverBiDiTextValueObservationProjectionError {
    WebDriverBiDiTextValueObservationProjectionError::InvalidValue
}

/// The refusal for nesting beyond the depth budget.
pub open spec fn nesting_too_deep() -> WebDriverBiDiTextValueObservationProjectionError {
    WebDriverBiDiTextValueObservationProjectionError::NestingTooDeep
}

// ---------------------------------------------------------------------------------------------
// Scanning
// ---------------------------------------------------------------------------------------------

/// The end of the string whose remaining content starts at `j`: control bytes are refused and a
/// backslash skips the byte after it.
pub open spec fn scan_string_rest(s: Seq<u8>, j: int) -> Result<int, WebDriverBiDiTextValueObservationProjectionError>
    decreases s.len() - j,
{
    match byte_at(s, j) {
        None => Err(invalid_string()),
        Some(b) => if b == QUOTE {
            Ok(j + 1)
        } else if b == BACKSLASH {
            if j + 2 > s.len() {
                Err(invalid_string())
            } else {
                scan_string_rest(s, j + 2)
            }
        } else if b < 0x20 {
            Err(invalid_string())
        } else {
            scan_string_rest(s, j + 1)
        },
    }
}

/// The end of the string whose opening quote is at `start`.
pub open spec fn scan_string(s: Seq<u8>, start: int) -> Result<int, WebDriverBiDiTextValueObservationProjectionError> {
    if byte_at(s, start) != Some(QUOTE) {
        Err(invalid_string())
    } else {
        scan_string_rest(s, start + 1)
    }
}

/// The end of a container whose remaining content starts at `j`, with the closing bytes still
/// owed on `stack` (innermost last).
pub open spec fn scan_container_rest(s: Seq<u8>, j: int, stack: Seq<u8>) -> Result<
    int,
    WebDriverBiDiTextValueObservationProjectionError,
>
    decreases s.len() - j,
{
    match byte_at(s, j) {
        None => Err(invalid_value()),
        Some(b) => if b == QUOTE {
            proof {
                lemma_scan_string_bounds(s, j);
            }
            match scan_string(s, j) {
                Err(e) => Err(e),
                Ok(k) => scan_container_rest(s, k, stack),
            }
        } else if b == OPEN_BRACE || b == OPEN_BRACKET {
            if stack.len() >= MAX_SCRIPT_RESULT_NESTING_DEPTH {
                Err(nesting_too_deep())
            } else {
                scan_container_rest(s, j + 1, stack.push(if b == OPEN_BRACE { CLOSE_BRACE } else { CLOSE_BRACKET }))
            }
        } else if b == CLOSE_BRACE || b == CLOSE_BRACKET {
            if stack.len() == 0 || stack.last() != b {
                Err(invalid_value())
            } else if stack.len() == 1 {
                Ok(j + 1)
            } else {
                scan_container_rest(s, j + 1, stack.drop_last())
            }
        } else {
            scan_container_rest(s, j + 1, stack)
        },
    }
}

/// The end of the container opened by `open` at `start` and closed by `close`, at nesting depth
/// `depth`.
pub open spec fn scan_container(s: Seq<u8>, start: int, open: u8, close: u8, depth: int) -> Result<
    int,
    WebDriverBiDiTextValueObservationProjectionError,
> {
    if depth > MAX_SCRIPT_RESULT_NESTING_DEPTH {
        Err(nesting_too_deep())
    } else if byte_at(s, start) != Some(open) {
        Err(invalid_value())
    } else {
        scan_container_rest(s, start + 1, seq![close])
    }
}

/// Bytes that end a bare (non-string, non-container) value.
pub open spec fn ends_bare_value(b: u8) -> bool {
    b == COMMA || b == CLOSE_BRACE || b == CLOSE_BRACKET || b == 0x20 || b == 0x09 || b == 0x0a || b == 0x0d
}

/// The end of the run of bare-value bytes starting at `i`.
pub open spec fn bare_value_end(s: Seq<u8>, i: int) -> int
    decreases s.len() - i,
{
    if 0 <= i < s.len() && !ends_bare_value(s[i]) {
        bare_value_end(s, i + 1)
    } else {
        i
    }
}

/// The end of the value starting exactly at `index`, at nesting depth `depth`.
pub open spec fn scan_value(s: Seq<u8>, index: int, depth: int) -> Result<
    int,
    WebDriverBiDiTextValueObservationProjectionError,
> {
    if depth >= MAX_SCRIPT_RESULT_NESTING_DEPTH {
        Err(nesting_too_deep())
    } else {
        match byte_at(s, index) {
            None => Err(invalid_value()),
            Some(b) => if b == QUOTE {
                scan_string(s, index)
            } else if b == OPEN_BRACE {
                scan_container(s, index, OPEN_BRACE, CLOSE_BRACE, depth + 1)
            } else if b == OPEN_BRACKET {
                scan_container(s, index, OPEN_BRACKET, CLOSE_BRACKET, depth + 1)
            } else {
                let end = bare_value_end(s, index);
                if end == index {
                    Err(invalid_value())
                } else {
                    Ok(end)
                }
            },
        }
    }
}

proof fn lemma_scan_string_rest_bounds(s: Seq<u8>, j: int)
    ensures
        scan_string_rest(s, j) matches Ok(e) ==> j < e <= s.len(),
    decreases s.len() - j,
{
    match byte_at(s, j) {
        None => {},
        Some(b) => if b == QUOTE {
        } else if b == BACKSLASH {
            if j + 2 <= s.len() {
                lemma_scan_string_rest_bounds(s, j + 2);
            }
        } else if b >= 0x20 {
            lemma_scan_string_rest_bounds(s, j + 1);
        },
    }
}

/// A scanned string ends after its opening quote and inside the text.
pub proof fn lemma_scan_string_bounds(s: Seq<u8>, start: int)
    ensures
        scan_string(s, start) matches Ok(e) ==> 0 <= start < e <= s.len(),
{
    lemma_scan_string_rest_bounds(s, start + 1);
}

proof fn lemma_bare_value_end(s: Seq<u8>, i: int)
    ensures
        i <= bare_value_end(s, i),
        0 <= i <= s.len() ==> bare_value_end(s, i) <= s.len(),
    decreases s.len() - i,
{
    if 0 <= i < s.len() && !ends_bare_value(s[i]) {
        lemma_bare_value_end(s, i + 1);
    }
}

/// Find the end of the JSON string whose opening quote is at `start`.
pub fn scan_string_end(bytes: &[u8], start: usize) -> (result: Result<
    usize,
    WebDriverBiDiTextValueObservationProjectionError,
>)
    ensures
        match result {
            Ok(e) => scan_string(bytes@, start as int) == Ok::<int, WebDriverBiDiTextValueObservationProjectionError>(
                e as int,
            ) && start < e <= bytes@.len(),
            Err(x) => scan_string(bytes@, start as int) == Err::<int, WebDriverBiDiTextValueObservationProjectionError>(x),
        },
{
    let len = bytes.len();
    if start >= len || bytes[start] != QUOTE {
        return Err(WebDriverBiDiTextValueObservationProjectionError::InvalidString);
    }
    let mut index = start + 1;
    while index < len
        invariant
            len == bytes@.len(),
            start < index <= len,
            scan_string(bytes@, start as int) == scan_string_rest(bytes@, index as int),
        decreases len - index,
    {
        let b = bytes[index];
        if b == QUOTE {
            return Ok(index + 1);
        } else if b == BACKSLASH {
            if len - index < 2 {
                return Err(WebDriverBiDiTextValueObservationProjectionError::InvalidString);
            }
            index = index + 2;
        } else if b < 0x20 {
            return Err(WebDriverBiDiTextValueObservationProjectionError::InvalidString);
        } else {
            index = index + 1;
        }
    }
    Err(WebDriverBiDiTextValueObservationProjectionError::InvalidString)
}

/// Find the end of the container opened by `open` at `start` and closed by `close`, at nesting
/// depth `depth`, tracking every nested bracket on a bounded stack.
pub fn scan_container_end(bytes: &[u8], start: usize, open: u8, close: u8, depth: usize) -> (result: Result<
    usize,
    WebDriverBiDiTextValueObservationProjectionError,
>)
    ensures
        match result {
            Ok(e) => scan_container(bytes@, start as int, open, close, depth as int) == Ok::<
                int,
                WebDriverBiDiTextValueObservationProjectionError,
            >(e as int) && start < e <= bytes@.len(),
            Err(x) => scan_container(bytes@, start as int, open, close, depth as int) == Err::<
                int,
                WebDriverBiDiTextValueObservationProjectionError,
            >(x),
        },
{
    if depth > MAX_SCRIPT_RESULT_NESTING_DEPTH {
        return Err(WebDriverBiDiTextValueObservationProjectionError::NestingTooDeep);
    }
    let len = bytes.len();
    if start >= len || bytes[start] != open {
        return Err(WebDriverBiDiTextValueObservationProjectionError::InvalidValue);
    }
    let mut stack: Vec<u8> = Vec::new();
    stack.push(close);
    assert(stack@ =~= seq![close]);
    let mut index = start + 1;
    while index < len
        invariant
            len == bytes@.len(),
            start < index <= len,
            stack@.len() >= 1,
            stack@.len() <= MAX_SCRIPT_RESULT_NESTING_DEPTH,
            scan_container(bytes@, start as int, open, close, depth as int) == scan_container_rest(
                bytes@,
                index as int,
                stack@,
            ),
        decreases len - index,
    {
        let b = bytes[index];
        if b == QUOTE {
            proof {
                lemma_scan_string_bounds(bytes@, index as int);
            }
            match scan_string_end(bytes, index) {
                Ok(k) => index = k,
                Err(e) => return Err(e),
            }
        } else if b == OPEN_BRACE || b == OPEN_BRACKET {
            if stack.len() >= MAX_SCRIPT_RESULT_NESTING_DEPTH {
                return Err(WebDriverBiDiTextValueObservationProjectionError::NestingTooDeep);
            }
            if b == OPEN_BRACE {
                stack.push(CLOSE_BRACE);
            } else {
                stack.push(CLOSE_BRACKET);
            }
            index = index + 1;
        } else if b == CLOSE_BRACE || b == CLOSE_BRACKET {
            let top = stack[stack.len() - 1];
            if top != b {
                return Err(WebDriverBiDiTextValueObservationProjectionError::InvalidValue);
            }
            if stack.len() == 1 {
                return Ok(index + 1);
            }
            let _ = stack.pop();
            index = index + 1;
        } else {
            index = index + 1;
        }
    }
    Err(WebDriverBiDiTextValueObservationProjectionError::InvalidValue)
}

/// Find the end of the value starting exactly at `index`, at nesting depth `depth`.
pub fn scan_value_end(bytes: &[u8], index: usize, depth: usize) -> (result: Result<
    usize,
    WebDriverBiDiTextValueObservationProjectionError,
>)
    ensures
        match result {
            Ok(e) => scan_value(bytes@, index as int, depth as int) == Ok::<
                int,
                WebDriverBiDiTextValueObservationProjectionError,
            >(e as int) && index < e <= bytes@.len(),
            Err(x) => scan_value(bytes@, index as int, depth as int) == Err::<
                int,
                WebDriverBiDiTextValueObservationProjectionError,
            >(x),
        },
{
    if depth >= MAX_SCRIPT_RESULT_NESTING_DEPTH {
        return Err(WebDriverBiDiTextValueObservationProjectionError::NestingTooDeep);
    }
    let len = bytes.len();
    if index >= len {
        return Err(WebDriverBiDiTextValueObservationProjectionError::InvalidValue);
    }
    let b = bytes[index];
    if b == QUOTE {
        scan_string_end(bytes, index)
    } else if b == OPEN_BRACE {
        scan_container_end(bytes, index, OPEN_BRACE, CLOSE_BRACE, depth + 1)
    } else if b == OPEN_BRACKET {
        scan_container_end(bytes, index, OPEN_BRACKET, CLOSE_BRACKET, depth + 1)
    } else {
        let mut end = index;
        while end < len && !(bytes[end] == COMMA || bytes[end] == CLOSE_BRACE || bytes[end]
            == CLOSE_BRACKET || bytes[end] == 0x20 || bytes[end] == 0x09 || bytes[end] == 0x0a
            || bytes[end] == 0x0d)
            invariant
                len == bytes@.len(),
                index <= end <= len,
                bare_value_end(bytes@, end as int) == bare_value_end(bytes@, index as int),
            decreases len - end,
        {
            end = end + 1;
        }
        if end == index {
            Err(WebDriverBiDiTextValueObservationProjectionError::InvalidValue)
        } else {
            Ok(end)
        }
    }
}

// ---------------------------------------------------------------------------------------------
// String decoding
// ---------------------------------------------------------------------------------------------

/// Whether the two bytes at `i` encode a C1 control character (U+0080 to U+009F).
pub open spec fn is_c1_control_at(t: Seq<u8>, i: int) -> bool {
    byte_at(t, i) == Some(0xc2u8) && (byte_at(t, i + 1) matches Some(n) && 0x80 <= n <= 0x9f)
}

/// Decode string content from `i` on, with `acc` already decoded. Escapes are decoded, control
/// characters (C0, DEL and C1) are refused, and every other character is kept as its UTF-8 bytes.
pub open spec fn decode_content(t: Seq<u8>, i: int, acc: Seq<u8>) -> Option<Seq<u8>>
    decreases t.len() - i,
{
    if i < 0 {
        None
    } else if i >= t.len() {
        Some(acc)
    } else {
        let b = t[i];
        if b == BACKSLASH {
            match escape_sequence(t, i + 1) {
                None => None,
                Some((k, decoded)) => if k > i {
                    decode_content(t, k, acc + decoded)
                } else {
                    None
                },
            }
        } else if b < 0x80 {
            if b < 0x20 || b == 0x7f {
                None
            } else {
                decode_content(t, i + 1, acc.push(b))
            }
        } else {
            let w = leading_ones_u8(b);
            if w < 2 || i + w > t.len() || is_c1_control_at(t, i) {
                None
            } else {
                decode_content(t, i + w, acc + t.subrange(i, i + w))
            }
        }
    }
}

/// Decode one quoted JSON string that spans all of `s`: the decoded bytes, when `s` starts and ends
/// with a quote and its content decodes.
pub open spec fn decode_json_value(s: Seq<u8>) -> Option<Seq<u8>> {
    if s.len() < 2 || s[0] != QUOTE || s[s.len() - 1] != QUOTE {
        None
    } else {
        decode_content(s.subrange(1, s.len() - 1), 0, Seq::empty())
    }
}

/// The decoded text of one quoted JSON string spanning all of `s`, when it is UTF-8 text.
pub open spec fn decoded_text(s: Seq<u8>) -> Option<Seq<u8>> {
    match decode_json_value(s) {
        Some(d) => if valid_utf8(d) {
            Some(d)
        } else {
            None
        },
        None => None,
    }
}

/// Decode one quoted JSON string spanning all of `bytes`.
pub fn decode_json_bytes(bytes: &[u8]) -> (result: Result<Vec<u8>, WebDriverBiDiTextValueObservationProjectionError>)
    ensures
        match decode_json_value(bytes@) {
            Some(d) => result matches Ok(v) && v@ == d,
            None => result == Err::<Vec<u8>, WebDriverBiDiTextValueObservationProjectionError>(invalid_string()),
        },
{
    let len = bytes.len();
    if len < 2 || bytes[0] != QUOTE || bytes[len - 1] != QUOTE {
        return Err(WebDriverBiDiTextValueObservationProjectionError::InvalidString);
    }
    let inner = &bytes[1..len - 1];
    let ghost t = inner@;
    let inner_len = inner.len();
    let mut output: Vec<u8> = Vec::new();
    let mut i: usize = 0;
    assert(output@ =~= Seq::<u8>::empty());
    while i < inner_len
        invariant
            inner_len == t.len(),
            inner@ == t,
            bytes@.len() >= 2,
            t == bytes@.subrange(1, bytes@.len() - 1),
            i <= inner_len,
            decode_json_value(bytes@) == decode_content(t, i as int, output@),
        decreases inner_len - i,
    {
        let b = inner[i];
        if b == BACKSLASH {
            proof {
                lemma_escape_bounds(t, i + 1);
            }
            match parse_escape(inner, i + 1, &mut output) {
                Some(k) => i = k,
                None => return Err(WebDriverBiDiTextValueObservationProjectionError::InvalidString),
            }
        } else if b < 0x80 {
            if b < 0x20 || b == 0x7f {
                return Err(WebDriverBiDiTextValueObservationProjectionError::InvalidString);
            }
            output.push(b);
            i = i + 1;
        } else {
            let w = leading_ones(b);
            if w < 2 || w > inner_len - i {
                return Err(WebDriverBiDiTextValueObservationProjectionError::InvalidString);
            }
            if b == 0xc2 && 0x80 <= inner[i + 1] && inner[i + 1] <= 0x9f {
                return Err(WebDriverBiDiTextValueObservationProjectionError::InvalidString);
            }
            let mut k: usize = 0;
            let ghost before = output@;
            while k < w
                invariant
                    inner_len == t.len(),
                    inner@ == t,
                    k <= w,
                    i + w <= inner_len,
                    output@ == before + t.subrange(i as int, i + k),
                decreases w - k,
            {
                output.push(inner[i + k]);
                k = k + 1;
                assert(output@ =~= before + t.subrange(i as int, i + k));
            }
            i = i + w;
        }
    }
    Ok(output)
}

fn leading_ones(b: u8) -> (count: usize)
    ensures
        count == leading_ones_u8(b),
{
    if b < 0x80 {
        0
    } else if b < 0xc0 {
        1
    } else if b < 0xe0 {
        2
    } else if b < 0xf0 {
        3
    } else if b < 0xf8 {
        4
    } else if b < 0xfc {
        5
    } else if b < 0xfe {
        6
    } else if b < 0xff {
        7
    } else {
        8
    }
}

/// Decode one quoted JSON string spanning all of `value` into text.
pub fn decode_json_string(value: &str) -> (result: Result<String, WebDriverBiDiTextValueObservationProjectionError>)
    ensures
        match decoded_text(encode_utf8(value@)) {
            Some(d) => result matches Ok(t) && encode_utf8(t@) == d,
            None => result == Err::<String, WebDriverBiDiTextValueObservationProjectionError>(invalid_string()),
        },
{
    let decoded = match decode_json_bytes(value.as_bytes()) {
        Ok(decoded) => decoded,
        Err(e) => return Err(e),
    };
    let ghost d = decoded@;
    match crate::text_message::string_from_utf8(decoded) {
        Some(text) => {
            proof {
                decode_utf8_encode_utf8(d);
            }
            Ok(text)
        },
        None => Err(WebDriverBiDiTextValueObservationProjectionError::InvalidString),
    }
}

// ---------------------------------------------------------------------------------------------
// Unicode white-space trimming
// ---------------------------------------------------------------------------------------------

/// One-byte encodings of characters with the Unicode `White_Space` property.
pub open spec fn white_space_1(b0: u8) -> bool {
    (0x09 <= b0 <= 0x0d) || b0 == 0x20
}

/// Two-byte encodings of characters with the Unicode `White_Space` property.
pub open spec fn white_space_2(b0: u8, b1: u8) -> bool {
    b0 == 0xc2 && (b1 == 0x85 || b1 == 0xa0)
}

/// Three-byte encodings of characters with the Unicode `White_Space` property.
pub open spec fn white_space_3(b0: u8, b1: u8, b2: u8) -> bool {
    ||| b0 == 0xe1 && b1 == 0x9a && b2 == 0x80
    ||| b0 == 0xe2 && b1 == 0x80 && ((0x80 <= b2 <= 0x8a) || b2 == 0xa8 || b2 == 0xa9 || b2 == 0xaf)
    ||| b0 == 0xe2 && b1 == 0x81 && b2 == 0x9f
    ||| b0 == 0xe3 && b1 == 0x80 && b2 == 0x80
}

/// The length of the white-space character starting at `a` inside `s[a..b]`, or 0.
pub open spec fn leading_white_space_len(s: Seq<u8>, a: int, b: int) -> int {
    if 0 <= a && a + 1 <= b && b <= s.len() && white_space_1(s[a]) {
        1
    } else if 0 <= a && a + 2 <= b && b <= s.len() && white_space_2(s[a], s[a + 1]) {
        2
    } else if 0 <= a && a + 3 <= b && b <= s.len() && white_space_3(s[a], s[a + 1], s[a + 2]) {
        3
    } else {
        0
    }
}

/// The length of the white-space character ending at `b` inside `s[a..b]`, or 0.
pub open spec fn trailing_white_space_len(s: Seq<u8>, a: int, b: int) -> int {
    if 0 <= a && a + 1 <= b && b <= s.len() && white_space_1(s[b - 1]) {
        1
    } else if 0 <= a && a + 2 <= b && b <= s.len() && white_space_2(s[b - 2], s[b - 1]) {
        2
    } else if 0 <= a && a + 3 <= b && b <= s.len() && white_space_3(s[b - 3], s[b - 2], s[b - 1]) {
        3
    } else {
        0
    }
}

/// The start of `s[a..b]` after its leading white space.
pub open spec fn trim_start(s: Seq<u8>, a: int, b: int) -> int
    decreases b - a,
{
    let n = leading_white_space_len(s, a, b);
    if a < b && n > 0 {
        trim_start(s, a + n, b)
    } else {
        a
    }
}

/// The end of `s[a..b]` before its trailing white space.
pub open spec fn trim_end(s: Seq<u8>, a: int, b: int) -> int
    decreases b - a,
{
    let n = trailing_white_space_len(s, a, b);
    if a < b && n > 0 {
        trim_end(s, a, b - n)
    } else {
        b
    }
}

proof fn lemma_trim_start(s: Seq<u8>, a: int, b: int)
    requires
        a <= b,
    ensures
        a <= trim_start(s, a, b) <= b,
    decreases b - a,
{
    let n = leading_white_space_len(s, a, b);
    if a < b && n > 0 {
        lemma_trim_start(s, a + n, b);
    }
}

proof fn lemma_trim_end(s: Seq<u8>, a: int, b: int)
    requires
        a <= b,
    ensures
        a <= trim_end(s, a, b) <= b,
    decreases b - a,
{
    let n = trailing_white_space_len(s, a, b);
    if a < b && n > 0 {
        lemma_trim_end(s, a, b - n);
    }
}

fn leading_white_space(bytes: &[u8], a: usize, b: usize) -> (n: usize)
    requires
        a <= b <= bytes@.len(),
    ensures
        n == leading_white_space_len(bytes@, a as int, b as int),
{
    if b - a >= 1 && ((0x09 <= bytes[a] && bytes[a] <= 0x0d) || bytes[a] == 0x20) {
        1
    } else if b - a >= 2 && bytes[a] == 0xc2 && (bytes[a + 1] == 0x85 || bytes[a + 1] == 0xa0) {
        2
    } else if b - a >= 3 && ((bytes[a] == 0xe1 && bytes[a + 1] == 0x9a && bytes[a + 2] == 0x80) || (
    bytes[a] == 0xe2 && bytes[a + 1] == 0x80 && ((0x80 <= bytes[a + 2] && bytes[a + 2] <= 0x8a)
        || bytes[a + 2] == 0xa8 || bytes[a + 2] == 0xa9 || bytes[a + 2] == 0xaf)) || (bytes[a]
        == 0xe2 && bytes[a + 1] == 0x81 && bytes[a + 2] == 0x9f) || (bytes[a] == 0xe3 && bytes[a
        + 1] == 0x80 && bytes[a + 2] == 0x80)) {
        3
    } else {
        0
    }
}

fn trailing_white_space(bytes: &[u8], a: usize, b: usize) -> (n: usize)
    requires
        a <= b <= bytes@.len(),
    ensures
        n == trailing_white_space_len(bytes@, a as int, b as int),
{
    if b - a >= 1 && ((0x09 <= bytes[b - 1] && bytes[b - 1] <= 0x0d) || bytes[b - 1] == 0x20) {
        1
    } else if b - a >= 2 && bytes[b - 2] == 0xc2 && (bytes[b - 1] == 0x85 || bytes[b - 1] == 0xa0) {
        2
    } else if b - a >= 3 && ((bytes[b - 3] == 0xe1 && bytes[b - 2] == 0x9a && bytes[b - 1] == 0x80)
        || (bytes[b - 3] == 0xe2 && bytes[b - 2] == 0x80 && ((0x80 <= bytes[b - 1] && bytes[b - 1]
        <= 0x8a) || bytes[b - 1] == 0xa8 || bytes[b - 1] == 0xa9 || bytes[b - 1] == 0xaf)) || (
    bytes[b - 3] == 0xe2 && bytes[b - 2] == 0x81 && bytes[b - 1] == 0x9f) || (bytes[b - 3] == 0xe3
        && bytes[b - 2] == 0x80 && bytes[b - 1] == 0x80)) {
        3
    } else {
        0
    }
}

/// Strip characters with the Unicode `White_Space` property from both ends of `bytes[a..b]`.
pub fn trim_white_space(bytes: &[u8], a: usize, b: usize) -> (range: (usize, usize))
    requires
        a <= b <= bytes@.len(),
    ensures
        range.0 == trim_start(bytes@, a as int, b as int),
        range.1 == trim_end(bytes@, range.0 as int, b as int),
        a <= range.0 <= range.1 <= b,
{
    let mut start = a;
    let mut n = leading_white_space(bytes, start, b);
    while start < b && n > 0
        invariant
            a <= start <= b <= bytes@.len(),
            n == leading_white_space_len(bytes@, start as int, b as int),
            trim_start(bytes@, start as int, b as int) == trim_start(bytes@, a as int, b as int),
        decreases b - start,
    {
        start = start + n;
        n = leading_white_space(bytes, start, b);
    }
    let mut end = b;
    let mut m = trailing_white_space(bytes, start, end);
    while start < end && m > 0
        invariant
            start <= end <= b <= bytes@.len(),
            m == trailing_white_space_len(bytes@, start as int, end as int),
            trim_end(bytes@, start as int, end as int) == trim_end(bytes@, start as int, b as int),
        decreases end - start,
    {
        end = end - m;
        m = trailing_white_space(bytes, start, end);
    }
    (start, end)
}

// ---------------------------------------------------------------------------------------------
// Object members
// ---------------------------------------------------------------------------------------------

/// Whether a member named `name` was already read.
pub open spec fn has_member_name(members: Seq<(Seq<u8>, int, int)>, name: Seq<u8>) -> bool {
    exists|m: int| 0 <= m < members.len() && (#[trigger] members[m]).0 == name
}

/// The members of an object from `i` on, with `members` already read (each a decoded name and the
/// range of its value), up to the closing `}` and trailing white space that must end the text.
pub open spec fn object_members_from(s: Seq<u8>, i: int, members: Seq<(Seq<u8>, int, int)>) -> Result<
    Seq<(Seq<u8>, int, int)>,
    WebDriverBiDiTextValueObservationProjectionError,
>
    decreases s.len() - i,
{
    let k = ws_end(s, i);
    if byte_at(s, k) == Some(CLOSE_BRACE) {
        if ws_end(s, k + 1) != s.len() {
            Err(invalid_value())
        } else {
            Ok(members)
        }
    } else if members.len() >= MAX_SCRIPT_RESULT_OBJECT_MEMBERS {
        Err(WebDriverBiDiTextValueObservationProjectionError::TooManyMembers)
    } else {
        match scan_string(s, k) {
            Err(e) => Err(e),
            Ok(key_end) => match decoded_text(s.subrange(k, key_end)) {
                None => Err(invalid_string()),
                Some(key) => if key.len() > MAX_SCRIPT_RESULT_MEMBER_NAME_BYTES {
                    Err(WebDriverBiDiTextValueObservationProjectionError::MemberNameTooLong)
                } else if has_member_name(members, key) {
                    Err(WebDriverBiDiTextValueObservationProjectionError::DuplicateMember)
                } else {
                    let c = ws_end(s, key_end);
                    if byte_at(s, c) != Some(COLON) {
                        Err(invalid_value())
                    } else {
                        let vs = ws_end(s, c + 1);
                        match scan_value(s, vs, 0) {
                            Err(e) => Err(e),
                            Ok(ve) => {
                                let read = members.push((key, vs, ve));
                                let t = ws_end(s, ve);
                                if t <= i {
                                    Err(invalid_value())
                                } else if byte_at(s, t) == Some(COMMA) {
                                    object_members_from(s, t + 1, read)
                                } else if byte_at(s, t) == Some(CLOSE_BRACE) {
                                    object_members_from(s, t, read)
                                } else {
                                    Err(invalid_value())
                                }
                            },
                        }
                    }
                },
            },
        }
    }
}

/// The members of the object that, with surrounding white space, spans all of `s`.
pub open spec fn object_members(s: Seq<u8>, path: &'static str) -> Result<
    Seq<(Seq<u8>, int, int)>,
    WebDriverBiDiTextValueObservationProjectionError,
> {
    let i0 = ws_end(s, 0);
    if byte_at(s, i0) != Some(OPEN_BRACE) {
        Err(WebDriverBiDiTextValueObservationProjectionError::InvalidObject { member: path })
    } else {
        object_members_from(s, i0 + 1, Seq::empty())
    }
}

/// One member read from a command-specific object: its decoded name and the range of its value.
#[derive(Debug)]
pub struct ObjectMember {
    /// The decoded member name.
    pub name: Vec<u8>,
    /// Where the member value starts.
    pub value_start: usize,
    /// Where the member value ends.
    pub value_end: usize,
}

/// The name and value range of one object member.
pub open spec fn member_view(m: ObjectMember) -> (Seq<u8>, int, int) {
    (m.name@, m.value_start as int, m.value_end as int)
}

/// The names and value ranges of object members.
pub open spec fn members_view(members: Seq<ObjectMember>) -> Seq<(Seq<u8>, int, int)> {
    members.map_values(|m: ObjectMember| member_view(m))
}

fn name_seen(members: &Vec<ObjectMember>, name: &Vec<u8>) -> (seen: bool)
    ensures
        seen == has_member_name(members_view(members@), name@),
{
    let mut m: usize = 0;
    while m < members.len()
        invariant
            m <= members@.len(),
            forall|j: int| 0 <= j < m ==> (#[trigger] members@[j]).name@ != name@,
        decreases members@.len() - m,
    {
        if crate::json_text::bytes_equal(members[m].name.as_slice(), name.as_slice()) {
            assert(members_view(members@)[m as int].0 == name@);
            return true;
        }
        m = m + 1;
    }
    proof {
        if has_member_name(members_view(members@), name@) {
            let j = choose|j: int| 0 <= j < members_view(members@).len() && (#[trigger] members_view(members@)[j]).0 == name@;
            assert(members@[j].name@ == name@);
        }
    }
    false
}

/// Read the members of the object that, with surrounding white space, spans all of `bytes`.
pub fn object_members_of(bytes: &[u8], path: &'static str) -> (result: Result<
    Vec<ObjectMember>,
    WebDriverBiDiTextValueObservationProjectionError,
>)
    ensures
        match result {
            Ok(members) => object_members(bytes@, path) == Ok::<
                Seq<(Seq<u8>, int, int)>,
                WebDriverBiDiTextValueObservationProjectionError,
            >(members_view(members@)) && forall|j: int| 0 <= j < members@.len() ==> (#[trigger] members@[j]).value_start
                <= members@[j].value_end <= bytes@.len(),
            Err(e) => object_members(bytes@, path) == Err::<
                Seq<(Seq<u8>, int, int)>,
                WebDriverBiDiTextValueObservationProjectionError,
            >(e),
        },
{
    let len = bytes.len();
    let i0 = skip_whitespace(bytes, 0);
    if i0 >= len || bytes[i0] != OPEN_BRACE {
        return Err(WebDriverBiDiTextValueObservationProjectionError::InvalidObject { member: path });
    }
    let mut index = i0 + 1;
    let mut members: Vec<ObjectMember> = Vec::new();
    assert(members_view(members@) =~= Seq::<(Seq<u8>, int, int)>::empty());
    loop
        invariant
            len == bytes@.len(),
            index <= len,
            object_members(bytes@, path) == object_members_from(bytes@, index as int, members_view(members@)),
            forall|j: int| 0 <= j < members@.len() ==> (#[trigger] members@[j]).value_start
                <= members@[j].value_end <= len,
        decreases len - index,
    {
        let ghost i = index;
        let k = skip_whitespace(bytes, index);
        if k < len && bytes[k] == CLOSE_BRACE {
            let e = skip_whitespace(bytes, k + 1);
            if e != len {
                return Err(WebDriverBiDiTextValueObservationProjectionError::InvalidValue);
            }
            return Ok(members);
        }
        if members.len() >= MAX_SCRIPT_RESULT_OBJECT_MEMBERS {
            return Err(WebDriverBiDiTextValueObservationProjectionError::TooManyMembers);
        }
        let key_end = match scan_string_end(bytes, k) {
            Ok(e) => e,
            Err(e) => return Err(e),
        };
        let key_bytes = &bytes[k..key_end];
        let key = match decode_json_bytes(key_bytes) {
            Ok(key) => key,
            Err(e) => return Err(e),
        };
        if crate::text_message::str_from_utf8(key.as_slice()).is_none() {
            return Err(WebDriverBiDiTextValueObservationProjectionError::InvalidString);
        }
        if key.len() > MAX_SCRIPT_RESULT_MEMBER_NAME_BYTES {
            return Err(WebDriverBiDiTextValueObservationProjectionError::MemberNameTooLong);
        }
        if name_seen(&members, &key) {
            return Err(WebDriverBiDiTextValueObservationProjectionError::DuplicateMember);
        }
        let c = skip_whitespace(bytes, key_end);
        if c >= len || bytes[c] != COLON {
            return Err(WebDriverBiDiTextValueObservationProjectionError::InvalidValue);
        }
        let vs = skip_whitespace(bytes, c + 1);
        let ve = match scan_value_end(bytes, vs, 0) {
            Ok(e) => e,
            Err(e) => return Err(e),
        };
        let ghost before = members_view(members@);
        members.push(ObjectMember { name: key, value_start: vs, value_end: ve });
        proof {
            assert(members_view(members@) =~= before.push((key_bytes_decoded(bytes@, k as int, key_end as int), vs as int, ve as int)));
        }
        let t = skip_whitespace(bytes, ve);
        if t < len && bytes[t] == COMMA {
            index = t + 1;
        } else if t < len && bytes[t] == CLOSE_BRACE {
            index = t;
        } else {
            return Err(WebDriverBiDiTextValueObservationProjectionError::InvalidValue);
        }
    }
}

spec fn key_bytes_decoded(s: Seq<u8>, k: int, key_end: int) -> Seq<u8> {
    decode_json_value(s.subrange(k, key_end)).unwrap()
}

/// Read the members of the object that, with surrounding white space, spans all of `text`.
pub fn parse_object_members(text: &str, path: &'static str) -> (result: Result<
    Vec<ObjectMember>,
    WebDriverBiDiTextValueObservationProjectionError,
>)
    ensures
        match result {
            Ok(members) => object_members(encode_utf8(text@), path) == Ok::<
                Seq<(Seq<u8>, int, int)>,
                WebDriverBiDiTextValueObservationProjectionError,
            >(members_view(members@)),
            Err(e) => object_members(encode_utf8(text@), path) == Err::<
                Seq<(Seq<u8>, int, int)>,
                WebDriverBiDiTextValueObservationProjectionError,
            >(e),
        },
{
    object_members_of(text.as_bytes(), path)
}

// ---------------------------------------------------------------------------------------------
// Required members and the script result
// ---------------------------------------------------------------------------------------------

/// The value range of the first member at or after `m` named `name`.
pub open spec fn first_member(members: Seq<(Seq<u8>, int, int)>, name: Seq<u8>, m: int) -> Option<(int, int)>
    decreases members.len() - m,
{
    if m < 0 || m >= members.len() {
        None
    } else if members[m].0 == name {
        Some((members[m].1, members[m].2))
    } else {
        first_member(members, name, m + 1)
    }
}

/// The trimmed range of the required object member `name` of an object in `s`.
pub open spec fn required_object(
    s: Seq<u8>,
    members: Seq<(Seq<u8>, int, int)>,
    name: Seq<u8>,
    path: &'static str,
) -> Result<(int, int), WebDriverBiDiTextValueObservationProjectionError> {
    match first_member(members, name, 0) {
        None => Err(WebDriverBiDiTextValueObservationProjectionError::MissingMember { member: path }),
        Some((vs, ve)) => {
            let a = trim_start(s, vs, ve);
            let b = trim_end(s, a, ve);
            if a < b && s[a] == OPEN_BRACE {
                Ok((a, b))
            } else {
                Err(WebDriverBiDiTextValueObservationProjectionError::InvalidObject { member: path })
            }
        },
    }
}

/// The decoded text of the required string member `name` of an object in `s`.
pub open spec fn required_string(
    s: Seq<u8>,
    members: Seq<(Seq<u8>, int, int)>,
    name: Seq<u8>,
    path: &'static str,
) -> Result<Seq<u8>, WebDriverBiDiTextValueObservationProjectionError> {
    match first_member(members, name, 0) {
        None => Err(WebDriverBiDiTextValueObservationProjectionError::MissingMember { member: path }),
        Some((vs, ve)) => {
            let a = trim_start(s, vs, ve);
            let b = trim_end(s, a, ve);
            match decoded_text(s.subrange(a, b)) {
                None => Err(invalid_string()),
                Some(d) => Ok(d),
            }
        },
    }
}

spec fn ranges_within(members: Seq<ObjectMember>, len: int) -> bool {
    forall|j: int| 0 <= j < members.len() ==> (#[trigger] members[j]).value_start <= members[j].value_end <= len
}

fn find_member(members: &Vec<ObjectMember>, name: &'static str) -> (found: Option<(usize, usize)>)
    requires
        vstd::string::is_ascii(name),
    ensures
        match first_member(members_view(members@), lit(name), 0) {
            Some((vs, ve)) => found matches Some((a, b)) && a == vs && b == ve,
            None => found is None,
        },
{
    let wanted = crate::json_text::ascii_literal(name);
    let mut m: usize = 0;
    while m < members.len()
        invariant
            m <= members@.len(),
            wanted@ == lit(name),
            first_member(members_view(members@), lit(name), 0) == first_member(members_view(members@), lit(name), m as int),
        decreases members@.len() - m,
    {
        if crate::json_text::bytes_equal(members[m].name.as_slice(), wanted) {
            return Some((members[m].value_start, members[m].value_end));
        }
        m = m + 1;
    }
    None
}

fn required_object_member(
    bytes: &[u8],
    members: &Vec<ObjectMember>,
    name: &'static str,
    path: &'static str,
) -> (result: Result<(usize, usize), WebDriverBiDiTextValueObservationProjectionError>)
    requires
        vstd::string::is_ascii(name),
        ranges_within(members@, bytes@.len() as int),
    ensures
        match result {
            Ok((a, b)) => required_object(bytes@, members_view(members@), lit(name), path) == Ok::<
                (int, int),
                WebDriverBiDiTextValueObservationProjectionError,
            >((a as int, b as int)) && a < b <= bytes@.len(),
            Err(e) => required_object(bytes@, members_view(members@), lit(name), path) == Err::<
                (int, int),
                WebDriverBiDiTextValueObservationProjectionError,
            >(e),
        },
{
    let (vs, ve) = match find_member(members, name) {
        Some(range) => range,
        None => return Err(WebDriverBiDiTextValueObservationProjectionError::MissingMember { member: path }),
    };
    proof {
        lemma_first_member_in_range(members@, lit(name), 0, bytes@.len() as int);
    }
    let (a, b) = trim_white_space(bytes, vs, ve);
    if a < b && bytes[a] == OPEN_BRACE {
        Ok((a, b))
    } else {
        Err(WebDriverBiDiTextValueObservationProjectionError::InvalidObject { member: path })
    }
}

proof fn lemma_first_member_in_range(members: Seq<ObjectMember>, name: Seq<u8>, m: int, len: int)
    requires
        ranges_within(members, len),
    ensures
        first_member(members_view(members), name, m) matches Some((vs, ve)) ==> 0 <= vs <= ve <= len,
    decreases members.len() - m,
{
    if 0 <= m < members.len() {
        assert(members_view(members)[m] == member_view(members[m]));
        if members_view(members)[m].0 != name {
            lemma_first_member_in_range(members, name, m + 1, len);
        }
    }
}

fn required_string_member(
    bytes: &[u8],
    members: &Vec<ObjectMember>,
    name: &'static str,
    path: &'static str,
) -> (result: Result<Vec<u8>, WebDriverBiDiTextValueObservationProjectionError>)
    requires
        vstd::string::is_ascii(name),
        ranges_within(members@, bytes@.len() as int),
    ensures
        match result {
            Ok(d) => required_string(bytes@, members_view(members@), lit(name), path) == Ok::<
                Seq<u8>,
                WebDriverBiDiTextValueObservationProjectionError,
            >(d@) && valid_utf8(d@),
            Err(e) => required_string(bytes@, members_view(members@), lit(name), path) == Err::<
                Seq<u8>,
                WebDriverBiDiTextValueObservationProjectionError,
            >(e),
        },
{
    let (vs, ve) = match find_member(members, name) {
        Some(range) => range,
        None => return Err(WebDriverBiDiTextValueObservationProjectionError::MissingMember { member: path }),
    };
    proof {
        lemma_first_member_in_range(members@, lit(name), 0, bytes@.len() as int);
    }
    let (a, b) = trim_white_space(bytes, vs, ve);
    let decoded = match decode_json_bytes(&bytes[a..b]) {
        Ok(d) => d,
        Err(e) => return Err(e),
    };
    if crate::text_message::str_from_utf8(decoded.as_slice()).is_none() {
        return Err(WebDriverBiDiTextValueObservationProjectionError::InvalidString);
    }
    Ok(decoded)
}

/// What a successful `script.callFunction` result reports.
pub enum SpecScriptResult {
    /// A string RemoteValue with these UTF-8 bytes.
    Text(Seq<u8>),
    /// A script exception.
    Exception,
}

/// Projection of the `script.EvaluateResult` of one successful response document.
pub open spec fn script_result(s: Seq<u8>) -> Result<SpecScriptResult, WebDriverBiDiTextValueObservationProjectionError> {
    match object_members(s, "response") {
        Err(e) => Err(e),
        Ok(top) => match required_object(s, top, lit("result"), "result") {
            Err(e) => Err(e),
            Ok((a, b)) => {
                let r = s.subrange(a, b);
                match object_members(r, "result") {
                    Err(e) => Err(e),
                    Ok(sm) => match required_string(r, sm, lit("type"), "result.type") {
                        Err(e) => Err(e),
                        Ok(result_type) => match required_string(r, sm, lit("realm"), "result.realm") {
                            Err(e) => Err(e),
                            Ok(_) => if result_type == lit("success") {
                                remote_string(r, sm)
                            } else if result_type == lit("exception") {
                                match required_object(r, sm, lit("exceptionDetails"), "result.exceptionDetails") {
                                    Err(e) => Err(e),
                                    Ok(_) => Ok(SpecScriptResult::Exception),
                                }
                            } else {
                                Err(WebDriverBiDiTextValueObservationProjectionError::UnsupportedScriptResultType)
                            },
                        },
                    },
                }
            },
        },
    }
}

/// The string RemoteValue of a successful script result whose members are `sm` within `r`.
pub open spec fn remote_string(r: Seq<u8>, sm: Seq<(Seq<u8>, int, int)>) -> Result<
    SpecScriptResult,
    WebDriverBiDiTextValueObservationProjectionError,
> {
    match required_object(r, sm, lit("result"), "result.result") {
        Err(e) => Err(e),
        Ok((c, d)) => {
            let v = r.subrange(c, d);
            match object_members(v, "result.result") {
                Err(e) => Err(e),
                Ok(vm) => match required_string(v, vm, lit("type"), "result.result.type") {
                    Err(e) => Err(e),
                    Ok(remote_type) => if remote_type != lit("string") {
                        Err(WebDriverBiDiTextValueObservationProjectionError::UnsupportedRemoteValueType)
                    } else {
                        match required_string(v, vm, lit("value"), "result.result.value") {
                            Err(e) => Err(e),
                            Ok(observed) => if observed.len() > MAX_WEBDRIVER_BIDI_TYPE_TEXT_BYTES {
                                Err(WebDriverBiDiTextValueObservationProjectionError::ObservedTextTooLong)
                            } else {
                                Ok(SpecScriptResult::Text(observed))
                            },
                        }
                    },
                },
            }
        },
    }
}

/// What a successful `script.callFunction` result reports, as bytes.
pub enum ScriptResultBytes {
    /// A string RemoteValue with these UTF-8 bytes.
    Text(Vec<u8>),
    /// A script exception.
    Exception,
}

/// The abstract content of a projected script result.
pub open spec fn script_result_view(r: ScriptResultBytes) -> SpecScriptResult {
    match r {
        ScriptResultBytes::Text(t) => SpecScriptResult::Text(t@),
        ScriptResultBytes::Exception => SpecScriptResult::Exception,
    }
}

fn is_name(value: &Vec<u8>, name: &'static str) -> (found: bool)
    requires
        vstd::string::is_ascii(name),
    ensures
        found == (value@ == lit(name)),
{
    crate::json_text::bytes_equal(value.as_slice(), crate::json_text::ascii_literal(name))
}

fn project_remote_string(r: &[u8], sm: &Vec<ObjectMember>) -> (result: Result<
    ScriptResultBytes,
    WebDriverBiDiTextValueObservationProjectionError,
>)
    requires
        ranges_within(sm@, r@.len() as int),
    ensures
        match result {
            Ok(p) => remote_string(r@, members_view(sm@)) == Ok::<
                SpecScriptResult,
                WebDriverBiDiTextValueObservationProjectionError,
            >(script_result_view(p)) && (p matches ScriptResultBytes::Text(t) ==> valid_utf8(t@)),
            Err(e) => remote_string(r@, members_view(sm@)) == Err::<
                SpecScriptResult,
                WebDriverBiDiTextValueObservationProjectionError,
            >(e),
        },
{
    proof {
        reveal_strlit("result");
        reveal_strlit("type");
        reveal_strlit("value");
        reveal_strlit("string");
    }
    let (c, d) = match required_object_member(r, sm, "result", "result.result") {
        Ok(range) => range,
        Err(e) => return Err(e),
    };
    let v = &r[c..d];
    let vm = match object_members_of(v, "result.result") {
        Ok(vm) => vm,
        Err(e) => return Err(e),
    };
    let remote_type = match required_string_member(v, &vm, "type", "result.result.type") {
        Ok(t) => t,
        Err(e) => return Err(e),
    };
    if !is_name(&remote_type, "string") {
        return Err(WebDriverBiDiTextValueObservationProjectionError::UnsupportedRemoteValueType);
    }
    let observed = match required_string_member(v, &vm, "value", "result.result.value") {
        Ok(o) => o,
        Err(e) => return Err(e),
    };
    if observed.len() > MAX_WEBDRIVER_BIDI_TYPE_TEXT_BYTES {
        return Err(WebDriverBiDiTextValueObservationProjectionError::ObservedTextTooLong);
    }
    Ok(ScriptResultBytes::Text(observed))
}

/// Project the `script.EvaluateResult` of one successful response document.
pub fn project_script_result_bytes(bytes: &[u8]) -> (result: Result<
    ScriptResultBytes,
    WebDriverBiDiTextValueObservationProjectionError,
>)
    ensures
        match result {
            Ok(p) => script_result(bytes@) == Ok::<
                SpecScriptResult,
                WebDriverBiDiTextValueObservationProjectionError,
            >(script_result_view(p)) && (p matches ScriptResultBytes::Text(t) ==> valid_utf8(t@)),
            Err(e) => script_result(bytes@) == Err::<
                SpecScriptResult,
                WebDriverBiDiTextValueObservationProjectionError,
            >(e),
        },
{
    proof {
        reveal_strlit("result");
        reveal_strlit("type");
        reveal_strlit("realm");
        reveal_strlit("success");
        reveal_strlit("exception");
        reveal_strlit("exceptionDetails");
    }
    let top = match object_members_of(bytes, "response") {
        Ok(top) => top,
        Err(e) => return Err(e),
    };
    let (a, b) = match required_object_member(bytes, &top, "result", "result") {
        Ok(range) => range,
        Err(e) => return Err(e),
    };
    let r = &bytes[a..b];
    let sm = match object_members_of(r, "result") {
        Ok(sm) => sm,
        Err(e) => return Err(e),
    };
    let result_type = match required_string_member(r, &sm, "type", "result.type") {
        Ok(t) => t,
        Err(e) => return Err(e),
    };
    match required_string_member(r, &sm, "realm", "result.realm") {
        Ok(_) => {},
        Err(e) => return Err(e),
    }
    if is_name(&result_type, "success") {
        project_remote_string(r, &sm)
    } else if is_name(&result_type, "exception") {
        match required_object_member(r, &sm, "exceptionDetails", "result.exceptionDetails") {
            Ok(_) => Ok(ScriptResultBytes::Exception),
            Err(e) => Err(e),
        }
    } else {
        Err(WebDriverBiDiTextValueObservationProjectionError::UnsupportedScriptResultType)
    }
}

/// What a successful `script.callFunction` result reports.
#[derive(Debug, PartialEq, Eq)]
pub enum ScriptResultProjection {
    /// A string RemoteValue.
    String(String),
    /// A script exception.
    Exception,
}

/// Project the `script.EvaluateResult` of one successful response document.
pub fn project_script_result(text: &str) -> (result: Result<
    ScriptResultProjection,
    WebDriverBiDiTextValueObservationProjectionError,
>)
    ensures
        match script_result(encode_utf8(text@)) {
            Ok(SpecScriptResult::Text(t)) => result matches Ok(ScriptResultProjection::String(s)) && encode_utf8(s@) == t,
            Ok(SpecScriptResult::Exception) => result == Ok::<
                ScriptResultProjection,
                WebDriverBiDiTextValueObservationProjectionError,
            >(ScriptResultProjection::Exception),
            Err(e) => result == Err::<ScriptResultProjection, WebDriverBiDiTextValueObservationProjectionError>(e),
        },
{
    match project_script_result_bytes(text.as_bytes()) {
        Ok(ScriptResultBytes::Text(t)) => {
            let ghost bytes = t@;
            match crate::text_message::string_from_utf8(t) {
                Some(s) => {
                    proof {
                        decode_utf8_encode_utf8(bytes);
                    }
                    Ok(ScriptResultProjection::String(s))
                },
                None => {
                    proof {
                        assert(false);
                    }
                    Err(WebDriverBiDiTextValueObservationProjectionError::InvalidString)
                },
            }
        },
        Ok(ScriptResultBytes::Exception) => Ok(ScriptResultProjection::Exception),
        Err(e) => Err(e),
    }
}

} // verus!
