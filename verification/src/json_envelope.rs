//! Complete RFC 8259 validation and local-end envelope classification of one WebDriver BiDi
//! message.
//!
//! The whole document is validated with a nesting budget; duplicate top-level member names are
//! rejected; then only the common envelope shape (`success`, `error` or `event`) is enforced.
//! Result and parameter bodies are validated and discarded.

use vstd::prelude::*;
use vstd::string::StringExecFns;
use vstd::utf8::*;

use crate::text_message::{str_from_utf8, WebDriverBiDiWebSocketTextMessage};
use crate::json_text::{
    ascii_literal, bytes_equal, decimal_digits, decimal_text, lemma_ascii_utf8, literal_at, parse_string, skip_whitespace,
    ascii_bytes, byte_at, has_literal_at, is_digit, json_string, DIGIT_NINE, lemma_json_string_bounds,
    lemma_ws_end, ws_end, CLOSE_BRACE, CLOSE_BRACKET, COLON, COMMA, DIGIT_ZERO, DOT, LOWER_E,
    LOWER_F, LOWER_N, LOWER_T, MINUS, OPEN_BRACE, OPEN_BRACKET, PLUS, QUOTE, UPPER_E,
};

verus! {

/// Largest nesting depth accepted while validating one BiDi JSON envelope.
pub const MAX_WEBDRIVER_BIDI_JSON_DEPTH: usize = 64;

/// Largest integer admitted by WebDriver BiDi's `js-uint` production (2^53 - 1).
pub const MAX_WEBDRIVER_BIDI_JS_UINT: u64 = 9_007_199_254_740_991;

/// Local-end WebDriver BiDi envelope kind after complete JSON syntax validation.
#[derive(Clone, Copy, Debug, PartialEq, Eq, Structural)]
pub enum WebDriverBiDiJsonEnvelopeKind {
    /// A command completed successfully.
    Success,
    /// A command completed with a protocol error.
    Error,
    /// The remote end emitted an event.
    Event,
}

/// Fail-closed JSON syntax and common-envelope failures for local-end WebDriver BiDi messages.
#[derive(Clone, Debug, PartialEq, Eq)]
pub enum WebDriverBiDiJsonEnvelopeError {
    /// The document violates RFC 8259 JSON syntax or contains trailing non-whitespace bytes.
    InvalidJson,
    /// The top-level JSON value is not an object.
    RootMustBeObject,
    /// A top-level object member name appears more than once.
    DuplicateTopLevelMember,
    /// JSON nesting exceeded the parser depth budget.
    NestingTooDeep {
        /// Maximum nesting depth admitted by this parser.
        maximum_depth: usize,
    },
    /// A required common-envelope member is absent.
    MissingRequiredMember {
        /// Stable non-sensitive member name.
        member: &'static str,
    },
    /// A common-envelope member has the wrong JSON type or value range.
    InvalidMember {
        /// Stable non-sensitive member name.
        member: &'static str,
    },
    /// The `type` discriminator is not one of the three local-end envelope kinds.
    UnsupportedEnvelopeType,
    /// A decoded member text is not well-formed UTF-8.
    InvalidText {
        /// Stable non-sensitive member name.
        member: &'static str,
    },
}

impl WebDriverBiDiJsonEnvelopeError {
    /// Stable operator-facing description that never includes message content.
    pub fn to_string(&self) -> (text: String)
        ensures
            text@ == self.description(),
    {
        match self {
            WebDriverBiDiJsonEnvelopeError::InvalidJson => "invalid WebDriver BiDi JSON document".to_owned(),
            WebDriverBiDiJsonEnvelopeError::RootMustBeObject => "WebDriver BiDi local-end message must be a JSON object".to_owned(),
            WebDriverBiDiJsonEnvelopeError::DuplicateTopLevelMember => "WebDriver BiDi JSON object contains a duplicate top-level member".to_owned(),
            WebDriverBiDiJsonEnvelopeError::NestingTooDeep { maximum_depth } => {
                let mut text = "WebDriver BiDi JSON nesting exceeds maximum depth ".to_owned();
                let depth = decimal_text(*maximum_depth as u64);
                text.append(depth.as_str());
                text
            },
            WebDriverBiDiJsonEnvelopeError::MissingRequiredMember { member } => {
                let mut text = "WebDriver BiDi envelope is missing required member ".to_owned();
                text.append(member);
                text
            },
            WebDriverBiDiJsonEnvelopeError::InvalidMember { member } => {
                let mut text = "WebDriver BiDi envelope member ".to_owned();
                text.append(member);
                text.append(" is invalid");
                text
            },
            WebDriverBiDiJsonEnvelopeError::UnsupportedEnvelopeType => "unsupported WebDriver BiDi local-end envelope type".to_owned(),
            WebDriverBiDiJsonEnvelopeError::InvalidText { member } => {
                let mut text = "WebDriver BiDi envelope member ".to_owned();
                text.append(member);
                text.append(" is not UTF-8 text");
                text
            },
        }
    }

    /// The operator-facing description of this error.
    pub open spec fn description(&self) -> Seq<char> {
        match self {
            WebDriverBiDiJsonEnvelopeError::InvalidJson => "invalid WebDriver BiDi JSON document"@,
            WebDriverBiDiJsonEnvelopeError::RootMustBeObject => "WebDriver BiDi local-end message must be a JSON object"@,
            WebDriverBiDiJsonEnvelopeError::DuplicateTopLevelMember => "WebDriver BiDi JSON object contains a duplicate top-level member"@,
            WebDriverBiDiJsonEnvelopeError::NestingTooDeep { maximum_depth } => "WebDriver BiDi JSON nesting exceeds maximum depth "@
                + decode_utf8(decimal_digits(*maximum_depth as nat)),
            WebDriverBiDiJsonEnvelopeError::MissingRequiredMember { member } => "WebDriver BiDi envelope is missing required member "@ + member@,
            WebDriverBiDiJsonEnvelopeError::InvalidMember { member } => "WebDriver BiDi envelope member "@ + member@ + " is invalid"@,
            WebDriverBiDiJsonEnvelopeError::UnsupportedEnvelopeType => "unsupported WebDriver BiDi local-end envelope type"@,
            WebDriverBiDiJsonEnvelopeError::InvalidText { member } => "WebDriver BiDi envelope member "@ + member@ + " is not UTF-8 text"@,
        }
    }

    /// No envelope error wraps another error.
    pub fn source(&self) -> (source: Option<&WebDriverBiDiJsonEnvelopeError>)
        ensures
            source is None,
    {
        None
    }
}

/// The nesting refusal at the parser depth budget.
pub open spec fn nesting_too_deep() -> WebDriverBiDiJsonEnvelopeError {
    WebDriverBiDiJsonEnvelopeError::NestingTooDeep { maximum_depth: 64 }
}

/// The bytes of an ASCII literal.
pub open spec fn lit(text: &str) -> Seq<u8> {
    ascii_bytes(text@)
}

/// What the envelope keeps of one top-level member value.
pub enum SpecJsonValue {
    Null,
    Text(Seq<u8>),
    Number(Option<u64>),
    Object,
    Other,
}

enum JsonValue {
    Null,
    Text(Vec<u8>),
    Number(Option<u64>),
    Object,
    Other,
}

impl View for JsonValue {
    type V = SpecJsonValue;

    closed spec fn view(&self) -> SpecJsonValue {
        match self {
            JsonValue::Null => SpecJsonValue::Null,
            JsonValue::Text(t) => SpecJsonValue::Text(t@),
            JsonValue::Number(n) => SpecJsonValue::Number(*n),
            JsonValue::Object => SpecJsonValue::Object,
            JsonValue::Other => SpecJsonValue::Other,
        }
    }
}

// ---------------------------------------------------------------------------------------------
// Grammar
// ---------------------------------------------------------------------------------------------

/// First position at or after `i` that is not an ASCII digit.
pub open spec fn digits_end(s: Seq<u8>, i: int) -> int
    decreases s.len() - i,
{
    if 0 <= i < s.len() && is_digit(s[i]) {
        digits_end(s, i + 1)
    } else {
        i
    }
}

/// The decimal value of the digits `s[start..end]`.
pub open spec fn decimal_value(s: Seq<u8>, start: int, end: int) -> nat
    decreases end - start,
{
    if end <= start {
        0
    } else {
        10 * decimal_value(s, start, end - 1) + (s[end - 1] - DIGIT_ZERO) as nat
    }
}

/// Whether `s[i]` is an ASCII decimal digit.
pub open spec fn is_digit_at(s: Seq<u8>, i: int) -> bool {
    match byte_at(s, i) {
        Some(b) => is_digit(b),
        None => false,
    }
}

/// A JSON number at `i`: its end and, for a non-negative integer within the `js-uint` range, its
/// value.
pub open spec fn json_number(s: Seq<u8>, i: int) -> Result<
    (int, Option<u64>),
    WebDriverBiDiJsonEnvelopeError,
> {
    let negative = byte_at(s, i) == Some(MINUS);
    let a = if negative {
        i + 1
    } else {
        i
    };
    let int_end: Option<int> = if byte_at(s, a) == Some(DIGIT_ZERO) {
        if is_digit_at(s, a + 1) {
            None
        } else {
            Some(a + 1)
        }
    } else if is_digit_at(s, a) {
        Some(digits_end(s, a + 1))
    } else {
        None
    };
    match int_end {
        None => Err(WebDriverBiDiJsonEnvelopeError::InvalidJson),
        Some(b) => {
            let has_fraction = byte_at(s, b) == Some(DOT);
            if has_fraction && !is_digit_at(s, b + 1) {
                Err(WebDriverBiDiJsonEnvelopeError::InvalidJson)
            } else {
                let c = if has_fraction {
                    digits_end(s, b + 1)
                } else {
                    b
                };
                let has_exponent = byte_at(s, c) == Some(LOWER_E) || byte_at(s, c) == Some(
                    UPPER_E,
                );
                let d1 = if byte_at(s, c + 1) == Some(PLUS) || byte_at(s, c + 1) == Some(MINUS) {
                    c + 2
                } else {
                    c + 1
                };
                if has_exponent && !is_digit_at(s, d1) {
                    Err(WebDriverBiDiJsonEnvelopeError::InvalidJson)
                } else {
                    let d = if has_exponent {
                        digits_end(s, d1)
                    } else {
                        c
                    };
                    let value = decimal_value(s, i, b);
                    let js_uint = if !negative && !has_fraction && !has_exponent && value
                        <= MAX_WEBDRIVER_BIDI_JS_UINT {
                        Some(value as u64)
                    } else {
                        None
                    };
                    Ok((d, js_uint))
                }
            }
        },
    }
}

/// One JSON value at or after `i` (leading whitespace allowed) at nesting depth `depth`.
pub open spec fn json_value(s: Seq<u8>, i: int, depth: int) -> Result<
    (int, SpecJsonValue),
    WebDriverBiDiJsonEnvelopeError,
>
    decreases s.len() - i, 1int,
{
    if depth > 64 {
        Err(nesting_too_deep())
    } else {
        let k = ws_end(s, i);
        proof {
            lemma_ws_end(s, i);
        }
        match byte_at(s, k) {
            None => Err(WebDriverBiDiJsonEnvelopeError::InvalidJson),
            Some(b) => if b == QUOTE {
                match json_string(s, k) {
                    Some((end, text)) => Ok((end, SpecJsonValue::Text(text))),
                    None => Err(WebDriverBiDiJsonEnvelopeError::InvalidJson),
                }
            } else if b == OPEN_BRACE {
                match json_object(s, k, depth) {
                    Ok(end) => Ok((end, SpecJsonValue::Object)),
                    Err(e) => Err(e),
                }
            } else if b == OPEN_BRACKET {
                match json_array(s, k, depth) {
                    Ok(end) => Ok((end, SpecJsonValue::Other)),
                    Err(e) => Err(e),
                }
            } else if b == LOWER_N {
                if has_literal_at(s, k, lit("null")) {
                    Ok((k + 4, SpecJsonValue::Null))
                } else {
                    Err(WebDriverBiDiJsonEnvelopeError::InvalidJson)
                }
            } else if b == LOWER_T {
                if has_literal_at(s, k, lit("true")) {
                    Ok((k + 4, SpecJsonValue::Other))
                } else {
                    Err(WebDriverBiDiJsonEnvelopeError::InvalidJson)
                }
            } else if b == LOWER_F {
                if has_literal_at(s, k, lit("false")) {
                    Ok((k + 5, SpecJsonValue::Other))
                } else {
                    Err(WebDriverBiDiJsonEnvelopeError::InvalidJson)
                }
            } else if b == MINUS || is_digit(b) {
                match json_number(s, k) {
                    Ok((end, n)) => Ok((end, SpecJsonValue::Number(n))),
                    Err(e) => Err(e),
                }
            } else {
                Err(WebDriverBiDiJsonEnvelopeError::InvalidJson)
            },
        }
    }
}

/// A JSON object whose `{` is at `k`, at nesting depth `depth`: the position after its `}`.
pub open spec fn json_object(s: Seq<u8>, k: int, depth: int) -> Result<
    int,
    WebDriverBiDiJsonEnvelopeError,
>
    decreases s.len() - k, 0int,
{
    if !(0 <= k < s.len()) {
        Err(WebDriverBiDiJsonEnvelopeError::InvalidJson)
    } else {
        let k1 = ws_end(s, k + 1);
        proof {
            lemma_ws_end(s, k + 1);
        }
        if byte_at(s, k1) == Some(CLOSE_BRACE) {
            Ok(k1 + 1)
        } else {
            json_object_members(s, k1, depth)
        }
    }
}

/// The members of a JSON object from `j` on, each preceded by optional whitespace.
pub open spec fn json_object_members(s: Seq<u8>, j: int, depth: int) -> Result<
    int,
    WebDriverBiDiJsonEnvelopeError,
>
    decreases s.len() - j, 2int,
{
    let k0 = ws_end(s, j);
    proof {
        lemma_ws_end(s, j);
        lemma_json_string_bounds(s, k0);
    }
    match json_string(s, k0) {
        None => Err(WebDriverBiDiJsonEnvelopeError::InvalidJson),
        Some((k1, _key)) => {
            let k2 = ws_end(s, k1);
            proof {
                lemma_ws_end(s, k1);
            }
            if byte_at(s, k2) != Some(COLON) {
                Err(WebDriverBiDiJsonEnvelopeError::InvalidJson)
            } else {
                let k3 = ws_end(s, k2 + 1);
                proof {
                    lemma_ws_end(s, k2 + 1);
                }
                match json_value(s, k3, depth + 1) {
                    Err(e) => Err(e),
                    Ok((k4, _v)) => {
                        let k5 = ws_end(s, k4);
                        if byte_at(s, k5) == Some(CLOSE_BRACE) {
                            Ok(k5 + 1)
                        } else if byte_at(s, k5) == Some(COMMA) && k5 + 1 > j {
                            json_object_members(s, k5 + 1, depth)
                        } else {
                            Err(WebDriverBiDiJsonEnvelopeError::InvalidJson)
                        }
                    },
                }
            }
        },
    }
}

/// A JSON array whose `[` is at `k`, at nesting depth `depth`: the position after its `]`.
pub open spec fn json_array(s: Seq<u8>, k: int, depth: int) -> Result<
    int,
    WebDriverBiDiJsonEnvelopeError,
>
    decreases s.len() - k, 0int,
{
    if !(0 <= k < s.len()) {
        Err(WebDriverBiDiJsonEnvelopeError::InvalidJson)
    } else {
        let k1 = ws_end(s, k + 1);
        proof {
            lemma_ws_end(s, k + 1);
        }
        if byte_at(s, k1) == Some(CLOSE_BRACKET) {
            Ok(k1 + 1)
        } else {
            json_array_items(s, k1, depth)
        }
    }
}

/// The items of a JSON array from `j` on.
pub open spec fn json_array_items(s: Seq<u8>, j: int, depth: int) -> Result<
    int,
    WebDriverBiDiJsonEnvelopeError,
>
    decreases s.len() - j, 2int,
{
    match json_value(s, j, depth + 1) {
        Err(e) => Err(e),
        Ok((k4, _v)) => {
            let k5 = ws_end(s, k4);
            if byte_at(s, k5) == Some(CLOSE_BRACKET) {
                Ok(k5 + 1)
            } else if byte_at(s, k5) == Some(COMMA) {
                let k6 = ws_end(s, k5 + 1);
                proof {
                    lemma_ws_end(s, k5 + 1);
                }
                if k6 > j {
                    json_array_items(s, k6, depth)
                } else {
                    Err(WebDriverBiDiJsonEnvelopeError::InvalidJson)
                }
            } else {
                Err(WebDriverBiDiJsonEnvelopeError::InvalidJson)
            }
        },
    }
}

} // verus!

verus! {

// ---------------------------------------------------------------------------------------------
// Executable validator
// ---------------------------------------------------------------------------------------------

fn consume_digits(bytes: &[u8], start: usize) -> (end: usize)
    requires
        start <= bytes@.len(),
    ensures
        end == digits_end(bytes@, start as int),
        start <= end <= bytes@.len(),
{
    let mut index = start;
    while index < bytes.len() && DIGIT_ZERO <= bytes[index] && bytes[index] <= DIGIT_NINE
        invariant
            start <= index <= bytes@.len(),
            digits_end(bytes@, index as int) == digits_end(bytes@, start as int),
        decreases bytes@.len() - index,
    {
        index = index + 1;
    }
    index
}

fn digit_at(bytes: &[u8], index: usize) -> (digit: bool)
    ensures
        digit == is_digit_at(bytes@, index as int),
{
    index < bytes.len() && DIGIT_ZERO <= bytes[index] && bytes[index] <= DIGIT_NINE
}

fn byte_is(bytes: &[u8], index: usize, expected: u8) -> (found: bool)
    ensures
        found == (byte_at(bytes@, index as int) == Some(expected)),
{
    index < bytes.len() && bytes[index] == expected
}

proof fn lemma_decimal_value_grows(s: Seq<u8>, start: int, end: int)
    requires
        start <= end,
    ensures
        decimal_value(s, start, end + 1) >= decimal_value(s, start, end),
{
}

proof fn lemma_decimal_digits_shape(n: nat)
    ensures
        decimal_digits(n).len() >= 1,
        forall|k: int| 0 <= k < decimal_digits(n).len() ==> is_digit(#[trigger] decimal_digits(n)[k]),
        decimal_digits(n)[0] == DIGIT_ZERO ==> n == 0 && decimal_digits(n).len() == 1,
        decimal_value(decimal_digits(n), 0, decimal_digits(n).len() as int) == n,
    decreases n,
{
    if n >= 10 {
        let p = decimal_digits(n / 10);
        lemma_decimal_digits_shape(n / 10);
        let d = (DIGIT_ZERO + n % 10) as u8;
        let s = p.push(d);
        assert(s[0] == p[0]);
        lemma_decimal_value_prefix(p, d, p.len() as int);
        assert(decimal_value(s, 0, s.len() as int) == 10 * decimal_value(s, 0, p.len() as int) + (d - DIGIT_ZERO) as nat);
        assert(10 * (n / 10) + n % 10 == n) by (nonlinear_arith);
    } else {
        let s = decimal_digits(n);
        assert(decimal_value(s, 0, 0) == 0);
        assert(decimal_value(s, 0, 1) == 10 * decimal_value(s, 0, 0) + (s[0] - DIGIT_ZERO) as nat);
    }
}

proof fn lemma_decimal_value_prefix(p: Seq<u8>, d: u8, end: int)
    requires
        0 <= end <= p.len(),
    ensures
        decimal_value(p.push(d), 0, end) == decimal_value(p, 0, end),
    decreases end,
{
    if end > 0 {
        lemma_decimal_value_prefix(p, d, end - 1);
    }
}

proof fn lemma_digits_run_to_end(s: Seq<u8>, i: int)
    requires
        0 <= i <= s.len(),
        forall|k: int| 0 <= k < s.len() ==> is_digit(#[trigger] s[k]),
    ensures
        digits_end(s, i) == s.len(),
    decreases s.len() - i,
{
    if i < s.len() {
        lemma_digits_run_to_end(s, i + 1);
    }
}

/// A command identifier serialized as decimal digits is read back by the JSON number grammar as
/// exactly the same `js-uint`, the number ending at the end of the digits.
pub proof fn lemma_serialized_id_reads_back(id: u64)
    requires
        id <= MAX_WEBDRIVER_BIDI_JS_UINT,
    ensures
        json_number(decimal_digits(id as nat), 0) == Ok::<(int, Option<u64>), WebDriverBiDiJsonEnvelopeError>(
            (decimal_digits(id as nat).len() as int, Some(id)),
        ),
{
    let s = decimal_digits(id as nat);
    lemma_decimal_digits_shape(id as nat);
    lemma_digits_run_to_end(s, 1);
    assert(is_digit(s[0]));
    if s.len() > 1 {
        assert(is_digit(s[1]));
    }
}

/// The value of the decimal digits `bytes[start..end]` when it is at most the `js-uint` maximum.
pub fn decimal_js_uint(bytes: &[u8], start: usize, end: usize) -> (value: Option<u64>)
    requires
        start <= end <= bytes@.len(),
        forall|m: int| start <= m < end ==> is_digit(#[trigger] bytes@[m]),
    ensures
        value == (if decimal_value(bytes@, start as int, end as int) <= MAX_WEBDRIVER_BIDI_JS_UINT {
            Some(decimal_value(bytes@, start as int, end as int) as u64)
        } else {
            None
        }),
{
    let mut value: u64 = 0;
    let mut over = false;
    let mut k = start;
    while k < end
        invariant
            start <= k <= end <= bytes@.len(),
            forall|m: int| start <= m < end ==> is_digit(#[trigger] bytes@[m]),
            !over ==> value == decimal_value(bytes@, start as int, k as int) && value
                <= MAX_WEBDRIVER_BIDI_JS_UINT,
            over ==> decimal_value(bytes@, start as int, k as int) > MAX_WEBDRIVER_BIDI_JS_UINT,
        decreases end - k,
    {
        proof {
            lemma_decimal_value_grows(bytes@, start as int, k as int);
        }
        if !over {
            assert(is_digit(bytes@[k as int]));
            let digit: u64 = (bytes[k] - DIGIT_ZERO) as u64;
            let next = value * 10 + digit;
            if next > MAX_WEBDRIVER_BIDI_JS_UINT {
                over = true;
            } else {
                value = next;
            }
        }
        k = k + 1;
    }
    if over {
        None
    } else {
        Some(value)
    }
}

} // verus!

verus! {

proof fn lemma_digits_end(s: Seq<u8>, i: int)
    ensures
        i <= digits_end(s, i),
        0 <= i <= s.len() ==> digits_end(s, i) <= s.len(),
        forall|m: int| i <= m < digits_end(s, i) ==> is_digit(#[trigger] s[m]),
    decreases s.len() - i,
{
    if 0 <= i < s.len() && is_digit(s[i]) {
        lemma_digits_end(s, i + 1);
    }
}

fn parse_number(bytes: &[u8], start: usize) -> (result: Result<
    (usize, Option<u64>),
    WebDriverBiDiJsonEnvelopeError,
>)
    requires
        start < bytes@.len(),
    ensures
        match result {
            Ok((end, value)) => json_number(bytes@, start as int) == Ok::<
                (int, Option<u64>),
                WebDriverBiDiJsonEnvelopeError,
            >((end as int, value)) && start < end <= bytes@.len(),
            Err(e) => json_number(bytes@, start as int) == Err::<
                (int, Option<u64>),
                WebDriverBiDiJsonEnvelopeError,
            >(e),
        },
{
    let len = bytes.len();
    let negative = bytes[start] == MINUS;
    let a = if negative {
        start + 1
    } else {
        start
    };
    let int_end: usize;
    if byte_is(bytes, a, DIGIT_ZERO) {
        if a + 1 < len && digit_at(bytes, a + 1) {
            return Err(WebDriverBiDiJsonEnvelopeError::InvalidJson);
        }
        int_end = a + 1;
    } else if digit_at(bytes, a) {
        int_end = consume_digits(bytes, a + 1);
    } else {
        return Err(WebDriverBiDiJsonEnvelopeError::InvalidJson);
    }
    proof {
        lemma_digits_end(bytes@, a + 1);
    }
    let has_fraction = byte_is(bytes, int_end, DOT);
    if has_fraction && !(int_end + 1 < len && digit_at(bytes, int_end + 1)) {
        return Err(WebDriverBiDiJsonEnvelopeError::InvalidJson);
    }
    let c = if has_fraction {
        consume_digits(bytes, int_end + 1)
    } else {
        int_end
    };
    let has_exponent = byte_is(bytes, c, LOWER_E) || byte_is(bytes, c, UPPER_E);
    let d = if has_exponent {
        let d1 = if c + 1 < len && (bytes[c + 1] == PLUS || bytes[c + 1] == MINUS) {
            c + 2
        } else {
            c + 1
        };
        if !(d1 < len && digit_at(bytes, d1)) {
            return Err(WebDriverBiDiJsonEnvelopeError::InvalidJson);
        }
        consume_digits(bytes, d1)
    } else {
        c
    };
    let value = if !negative && !has_fraction && !has_exponent {
        proof {
            if byte_at(bytes@, a as int) == Some(DIGIT_ZERO) {
                assert(int_end == a + 1);
            }
        }
        decimal_js_uint(bytes, start, int_end)
    } else {
        None
    };
    Ok((d, value))
}

fn parse_literal(bytes: &[u8], start: usize, literal: &'static str) -> (found: bool)
    requires
        vstd::string::is_ascii(literal),
    ensures
        found == has_literal_at(bytes@, start as int, lit(literal)),
{
    literal_at(bytes, start, ascii_literal(literal))
}

fn parse_value(bytes: &[u8], start: usize, depth: usize) -> (result: Result<
    (usize, JsonValue),
    WebDriverBiDiJsonEnvelopeError,
>)
    requires
        start <= bytes@.len(),
        depth <= 65,
    ensures
        match result {
            Ok((end, value)) => json_value(bytes@, start as int, depth as int) == Ok::<
                (int, SpecJsonValue),
                WebDriverBiDiJsonEnvelopeError,
            >((end as int, value@)) && start < end <= bytes@.len(),
            Err(e) => json_value(bytes@, start as int, depth as int) == Err::<
                (int, SpecJsonValue),
                WebDriverBiDiJsonEnvelopeError,
            >(e),
        },
    decreases bytes@.len() - start, 1int,
{
    if depth > MAX_WEBDRIVER_BIDI_JSON_DEPTH {
        return Err(WebDriverBiDiJsonEnvelopeError::NestingTooDeep { maximum_depth: MAX_WEBDRIVER_BIDI_JSON_DEPTH });
    }
    let k = skip_whitespace(bytes, start);
    if k >= bytes.len() {
        return Err(WebDriverBiDiJsonEnvelopeError::InvalidJson);
    }
    let b = bytes[k];
    proof {
        reveal_strlit("null");
        reveal_strlit("true");
        reveal_strlit("false");
        lemma_json_string_bounds(bytes@, k as int);
    }
    if b == QUOTE {
        match parse_string(bytes, k) {
            Some((end, text)) => Ok((end, JsonValue::Text(text))),
            None => Err(WebDriverBiDiJsonEnvelopeError::InvalidJson),
        }
    } else if b == OPEN_BRACE {
        match parse_object(bytes, k, depth) {
            Ok(end) => Ok((end, JsonValue::Object)),
            Err(e) => Err(e),
        }
    } else if b == OPEN_BRACKET {
        match parse_array(bytes, k, depth) {
            Ok(end) => Ok((end, JsonValue::Other)),
            Err(e) => Err(e),
        }
    } else if b == LOWER_N {
        if parse_literal(bytes, k, "null") {
            Ok((k + 4, JsonValue::Null))
        } else {
            Err(WebDriverBiDiJsonEnvelopeError::InvalidJson)
        }
    } else if b == LOWER_T {
        if parse_literal(bytes, k, "true") {
            Ok((k + 4, JsonValue::Other))
        } else {
            Err(WebDriverBiDiJsonEnvelopeError::InvalidJson)
        }
    } else if b == LOWER_F {
        if parse_literal(bytes, k, "false") {
            Ok((k + 5, JsonValue::Other))
        } else {
            Err(WebDriverBiDiJsonEnvelopeError::InvalidJson)
        }
    } else if b == MINUS || (DIGIT_ZERO <= b && b <= DIGIT_NINE) {
        match parse_number(bytes, k) {
            Ok((end, n)) => Ok((end, JsonValue::Number(n))),
            Err(e) => Err(e),
        }
    } else {
        Err(WebDriverBiDiJsonEnvelopeError::InvalidJson)
    }
}

fn parse_object(bytes: &[u8], start: usize, depth: usize) -> (result: Result<
    usize,
    WebDriverBiDiJsonEnvelopeError,
>)
    requires
        start < bytes@.len(),
        depth <= 64,
    ensures
        match result {
            Ok(end) => json_object(bytes@, start as int, depth as int) == Ok::<
                int,
                WebDriverBiDiJsonEnvelopeError,
            >(end as int) && start < end <= bytes@.len(),
            Err(e) => json_object(bytes@, start as int, depth as int) == Err::<
                int,
                WebDriverBiDiJsonEnvelopeError,
            >(e),
        },
    decreases bytes@.len() - start, 0int,
{
    let len = bytes.len();
    let k1 = skip_whitespace(bytes, start + 1);
    if byte_is(bytes, k1, CLOSE_BRACE) {
        return Ok(k1 + 1);
    }
    let mut j = k1;
    loop
        invariant
            len == bytes@.len(),
            start < j <= bytes@.len(),
            depth <= 64,
            json_object(bytes@, start as int, depth as int) == json_object_members(
                bytes@,
                j as int,
                depth as int,
            ),
        decreases bytes@.len() - j,
    {
        let k0 = skip_whitespace(bytes, j);
        proof {
            lemma_json_string_bounds(bytes@, k0 as int);
        }
        let k1 = match parse_string(bytes, k0) {
            Some((k1, _key)) => k1,
            None => return Err(WebDriverBiDiJsonEnvelopeError::InvalidJson),
        };
        let k2 = skip_whitespace(bytes, k1);
        if !byte_is(bytes, k2, COLON) {
            return Err(WebDriverBiDiJsonEnvelopeError::InvalidJson);
        }
        let k3 = skip_whitespace(bytes, k2 + 1);
        let k4 = match parse_value(bytes, k3, depth + 1) {
            Ok((k4, _value)) => k4,
            Err(e) => return Err(e),
        };
        let k5 = skip_whitespace(bytes, k4);
        if byte_is(bytes, k5, CLOSE_BRACE) {
            return Ok(k5 + 1);
        }
        if !byte_is(bytes, k5, COMMA) {
            return Err(WebDriverBiDiJsonEnvelopeError::InvalidJson);
        }
        j = k5 + 1;
    }
}

fn parse_array(bytes: &[u8], start: usize, depth: usize) -> (result: Result<
    usize,
    WebDriverBiDiJsonEnvelopeError,
>)
    requires
        start < bytes@.len(),
        depth <= 64,
    ensures
        match result {
            Ok(end) => json_array(bytes@, start as int, depth as int) == Ok::<
                int,
                WebDriverBiDiJsonEnvelopeError,
            >(end as int) && start < end <= bytes@.len(),
            Err(e) => json_array(bytes@, start as int, depth as int) == Err::<
                int,
                WebDriverBiDiJsonEnvelopeError,
            >(e),
        },
    decreases bytes@.len() - start, 0int,
{
    let len = bytes.len();
    let k1 = skip_whitespace(bytes, start + 1);
    if byte_is(bytes, k1, CLOSE_BRACKET) {
        return Ok(k1 + 1);
    }
    let mut j = k1;
    loop
        invariant
            len == bytes@.len(),
            start < j <= bytes@.len(),
            depth <= 64,
            json_array(bytes@, start as int, depth as int) == json_array_items(
                bytes@,
                j as int,
                depth as int,
            ),
        decreases bytes@.len() - j,
    {
        let k4 = match parse_value(bytes, j, depth + 1) {
            Ok((k4, _value)) => k4,
            Err(e) => return Err(e),
        };
        let k5 = skip_whitespace(bytes, k4);
        if byte_is(bytes, k5, CLOSE_BRACKET) {
            return Ok(k5 + 1);
        }
        if !byte_is(bytes, k5, COMMA) {
            return Err(WebDriverBiDiJsonEnvelopeError::InvalidJson);
        }
        let k6 = skip_whitespace(bytes, k5 + 1);
        j = k6;
    }
}

} // verus!

verus! {

// ---------------------------------------------------------------------------------------------
// Top-level members and the common envelope
// ---------------------------------------------------------------------------------------------

/// The top-level members the common envelope reads; other members are validated and dropped.
pub struct SpecTopLevelFields {
    pub envelope_type: Option<SpecJsonValue>,
    pub id: Option<SpecJsonValue>,
    pub result: Option<SpecJsonValue>,
    pub method: Option<SpecJsonValue>,
    pub params: Option<SpecJsonValue>,
    pub error: Option<SpecJsonValue>,
    pub message: Option<SpecJsonValue>,
    pub stacktrace: Option<SpecJsonValue>,
}

/// No top-level member recorded yet.
pub open spec fn no_fields() -> SpecTopLevelFields {
    SpecTopLevelFields {
        envelope_type: None,
        id: None,
        result: None,
        method: None,
        params: None,
        error: None,
        message: None,
        stacktrace: None,
    }
}

/// Retain `value` under the envelope member named `key`, if it is one the envelope reads.
pub open spec fn record_member(f: SpecTopLevelFields, key: Seq<u8>, value: SpecJsonValue) -> SpecTopLevelFields {
    if key == lit("type") {
        SpecTopLevelFields { envelope_type: Some(value), ..f }
    } else if key == lit("id") {
        SpecTopLevelFields { id: Some(value), ..f }
    } else if key == lit("result") {
        SpecTopLevelFields { result: Some(value), ..f }
    } else if key == lit("method") {
        SpecTopLevelFields { method: Some(value), ..f }
    } else if key == lit("params") {
        SpecTopLevelFields { params: Some(value), ..f }
    } else if key == lit("error") {
        SpecTopLevelFields { error: Some(value), ..f }
    } else if key == lit("message") {
        SpecTopLevelFields { message: Some(value), ..f }
    } else if key == lit("stacktrace") {
        SpecTopLevelFields { stacktrace: Some(value), ..f }
    } else {
        f
    }
}

/// Top-level members from `j` on, given the names `keys` already seen and the fields retained.
pub open spec fn top_level_members(
    s: Seq<u8>,
    j: int,
    keys: Seq<Seq<u8>>,
    fields: SpecTopLevelFields,
) -> Result<(int, SpecTopLevelFields), WebDriverBiDiJsonEnvelopeError>
    decreases s.len() - j,
{
    let k0 = ws_end(s, j);
    match json_string(s, k0) {
        None => Err(WebDriverBiDiJsonEnvelopeError::InvalidJson),
        Some((k1, key)) => if keys.contains(key) {
            Err(WebDriverBiDiJsonEnvelopeError::DuplicateTopLevelMember)
        } else {
            let k2 = ws_end(s, k1);
            if byte_at(s, k2) != Some(COLON) {
                Err(WebDriverBiDiJsonEnvelopeError::InvalidJson)
            } else {
                match json_value(s, ws_end(s, k2 + 1), 1) {
                    Err(e) => Err(e),
                    Ok((k4, value)) => {
                        let retained = record_member(fields, key, value);
                        let k5 = ws_end(s, k4);
                        if byte_at(s, k5) == Some(CLOSE_BRACE) {
                            Ok((k5 + 1, retained))
                        } else if byte_at(s, k5) == Some(COMMA) && k5 + 1 > j {
                            top_level_members(s, k5 + 1, keys.push(key), retained)
                        } else {
                            Err(WebDriverBiDiJsonEnvelopeError::InvalidJson)
                        }
                    },
                }
            }
        },
    }
}

/// The top-level object of a document: the position after its `}` and the retained fields.
pub open spec fn top_level_object(s: Seq<u8>) -> Result<
    (int, SpecTopLevelFields),
    WebDriverBiDiJsonEnvelopeError,
> {
    let k = ws_end(s, 0);
    if byte_at(s, k) != Some(OPEN_BRACE) {
        Err(WebDriverBiDiJsonEnvelopeError::RootMustBeObject)
    } else {
        let k1 = ws_end(s, k + 1);
        if byte_at(s, k1) == Some(CLOSE_BRACE) {
            Ok((k1 + 1, no_fields()))
        } else {
            top_level_members(s, k1, seq![], no_fields())
        }
    }
}

/// The 30 error codes of the WebDriver BiDi protocol error vocabulary.
pub open spec fn is_webdriver_bidi_error_code(code: Seq<u8>) -> bool {
    ||| code == lit("invalid argument")
    ||| code == lit("invalid selector")
    ||| code == lit("invalid session id")
    ||| code == lit("invalid web extension")
    ||| code == lit("move target out of bounds")
    ||| code == lit("no such alert")
    ||| code == lit("no such network collector")
    ||| code == lit("no such element")
    ||| code == lit("no such frame")
    ||| code == lit("no such handle")
    ||| code == lit("no such history entry")
    ||| code == lit("no such intercept")
    ||| code == lit("no such network data")
    ||| code == lit("no such node")
    ||| code == lit("no such request")
    ||| code == lit("no such screencast")
    ||| code == lit("no such script")
    ||| code == lit("no such storage partition")
    ||| code == lit("no such user context")
    ||| code == lit("no such web extension")
    ||| code == lit("session not created")
    ||| code == lit("unable to capture screen")
    ||| code == lit("unable to close browser")
    ||| code == lit("unable to set cookie")
    ||| code == lit("unable to set file input")
    ||| code == lit("unavailable network data")
    ||| code == lit("underspecified storage partition")
    ||| code == lit("unknown command")
    ||| code == lit("unknown error")
    ||| code == lit("unsupported operation")
}

/// Position of the first `b` in `s` at or after `i`.
pub open spec fn first_index_of(s: Seq<u8>, b: u8, i: int) -> Option<int>
    decreases s.len() - i,
{
    if !(0 <= i < s.len()) {
        None
    } else if s[i] == b {
        Some(i)
    } else {
        first_index_of(s, b, i + 1)
    }
}

/// An event method `module.event`: split at the first `.`, both sides non-empty.
pub open spec fn is_event_method(method: Seq<u8>) -> bool {
    match first_index_of(method, DOT, 0) {
        Some(p) => p > 0 && p + 1 < method.len(),
        None => false,
    }
}

/// Abstract content of a classified envelope.
pub struct SpecEnvelope {
    pub kind: WebDriverBiDiJsonEnvelopeKind,
    pub command_id: Option<u64>,
    pub method: Option<Seq<u8>>,
    pub error_code: Option<Seq<u8>>,
}

/// The refusal for an absent required member.
pub open spec fn missing(member: &'static str) -> WebDriverBiDiJsonEnvelopeError {
    WebDriverBiDiJsonEnvelopeError::MissingRequiredMember { member }
}

/// The refusal for a required member of the wrong type or range.
pub open spec fn invalid(member: &'static str) -> WebDriverBiDiJsonEnvelopeError {
    WebDriverBiDiJsonEnvelopeError::InvalidMember { member }
}

/// A required member holding JSON text.
pub open spec fn required_text_spec(value: Option<SpecJsonValue>, member: &'static str) -> Result<
    Seq<u8>,
    WebDriverBiDiJsonEnvelopeError,
> {
    match value {
        None => Err(missing(member)),
        Some(SpecJsonValue::Text(t)) => Ok(t),
        Some(_) => Err(invalid(member)),
    }
}

/// A required member holding a JSON object.
pub open spec fn require_object_spec(value: Option<SpecJsonValue>, member: &'static str) -> Result<
    (),
    WebDriverBiDiJsonEnvelopeError,
> {
    match value {
        None => Err(missing(member)),
        Some(SpecJsonValue::Object) => Ok(()),
        Some(_) => Err(invalid(member)),
    }
}

/// Classify retained top-level members as one of the three local-end envelope kinds.
pub open spec fn envelope_of_fields(f: SpecTopLevelFields) -> Result<
    SpecEnvelope,
    WebDriverBiDiJsonEnvelopeError,
> {
    match f.envelope_type {
        None => Err(missing("type")),
        Some(SpecJsonValue::Text(t)) => if t == lit("success") {
            match f.id {
                None => Err(missing("id")),
                Some(SpecJsonValue::Number(Some(id))) => match require_object_spec(
                    f.result,
                    "result",
                ) {
                    Err(e) => Err(e),
                    Ok(_) => Ok(
                        SpecEnvelope {
                            kind: WebDriverBiDiJsonEnvelopeKind::Success,
                            command_id: Some(id),
                            method: None,
                            error_code: None,
                        },
                    ),
                },
                Some(_) => Err(invalid("id")),
            }
        } else if t == lit("error") {
            let id: Result<Option<u64>, WebDriverBiDiJsonEnvelopeError> = match f.id {
                None => Err(missing("id")),
                Some(SpecJsonValue::Null) => Ok(None),
                Some(SpecJsonValue::Number(Some(id))) => Ok(Some(id)),
                Some(_) => Err(invalid("id")),
            };
            match id {
                Err(e) => Err(e),
                Ok(command_id) => match required_text_spec(f.error, "error") {
                    Err(e) => Err(e),
                    Ok(code) => match required_text_spec(f.message, "message") {
                        Err(e) => Err(e),
                        Ok(_) => match f.stacktrace {
                            Some(SpecJsonValue::Text(_)) | None => if is_webdriver_bidi_error_code(
                                code,
                            ) {
                                Ok(
                                    SpecEnvelope {
                                        kind: WebDriverBiDiJsonEnvelopeKind::Error,
                                        command_id,
                                        method: None,
                                        error_code: Some(code),
                                    },
                                )
                            } else {
                                Err(invalid("error"))
                            },
                            Some(_) => Err(invalid("stacktrace")),
                        },
                    },
                },
            }
        } else if t == lit("event") {
            match required_text_spec(f.method, "method") {
                Err(e) => Err(e),
                Ok(method) => match require_object_spec(f.params, "params") {
                    Err(e) => Err(e),
                    Ok(_) => if !is_event_method(method) {
                        Err(invalid("method"))
                    } else if !valid_utf8(method) {
                        Err(WebDriverBiDiJsonEnvelopeError::InvalidText { member: "method" })
                    } else {
                        Ok(
                            SpecEnvelope {
                                kind: WebDriverBiDiJsonEnvelopeKind::Event,
                                command_id: None,
                                method: Some(method),
                                error_code: None,
                            },
                        )
                    },
                },
            }
        } else {
            Err(WebDriverBiDiJsonEnvelopeError::UnsupportedEnvelopeType)
        },
        Some(_) => Err(invalid("type")),
    }
}

/// Complete validation and classification of the UTF-8 document `s`.
pub open spec fn parse_envelope(s: Seq<u8>) -> Result<SpecEnvelope, WebDriverBiDiJsonEnvelopeError> {
    match top_level_object(s) {
        Err(e) => Err(e),
        Ok((end, fields)) => if ws_end(s, end) != s.len() {
            Err(WebDriverBiDiJsonEnvelopeError::InvalidJson)
        } else {
            envelope_of_fields(fields)
        },
    }
}

} // verus!

verus! {

struct TopLevelFields {
    envelope_type: Option<JsonValue>,
    id: Option<JsonValue>,
    result: Option<JsonValue>,
    method: Option<JsonValue>,
    params: Option<JsonValue>,
    error: Option<JsonValue>,
    message: Option<JsonValue>,
    stacktrace: Option<JsonValue>,
}

spec fn option_value_view(v: Option<JsonValue>) -> Option<SpecJsonValue> {
    match v {
        Some(x) => Some(x@),
        None => None,
    }
}

impl View for TopLevelFields {
    type V = SpecTopLevelFields;

    closed spec fn view(&self) -> SpecTopLevelFields {
        SpecTopLevelFields {
            envelope_type: option_value_view(self.envelope_type),
            id: option_value_view(self.id),
            result: option_value_view(self.result),
            method: option_value_view(self.method),
            params: option_value_view(self.params),
            error: option_value_view(self.error),
            message: option_value_view(self.message),
            stacktrace: option_value_view(self.stacktrace),
        }
    }
}

impl TopLevelFields {
    fn new() -> (fields: Self)
        ensures
            fields@ == no_fields(),
    {
        TopLevelFields {
            envelope_type: None,
            id: None,
            result: None,
            method: None,
            params: None,
            error: None,
            message: None,
            stacktrace: None,
        }
    }

    fn record(&mut self, key: &[u8], value: JsonValue)
        ensures
            final(self)@ == record_member(old(self)@, key@, value@),
    {
        proof {
            reveal_strlit("type");
            reveal_strlit("id");
            reveal_strlit("result");
            reveal_strlit("method");
            reveal_strlit("params");
            reveal_strlit("error");
            reveal_strlit("message");
            reveal_strlit("stacktrace");
        }
        if bytes_equal(key, ascii_literal("type")) {
            self.envelope_type = Some(value);
        } else if bytes_equal(key, ascii_literal("id")) {
            self.id = Some(value);
        } else if bytes_equal(key, ascii_literal("result")) {
            self.result = Some(value);
        } else if bytes_equal(key, ascii_literal("method")) {
            self.method = Some(value);
        } else if bytes_equal(key, ascii_literal("params")) {
            self.params = Some(value);
        } else if bytes_equal(key, ascii_literal("error")) {
            self.error = Some(value);
        } else if bytes_equal(key, ascii_literal("message")) {
            self.message = Some(value);
        } else if bytes_equal(key, ascii_literal("stacktrace")) {
            self.stacktrace = Some(value);
        }
    }
}

spec fn byte_strings(keys: Seq<Vec<u8>>) -> Seq<Seq<u8>> {
    keys.map_values(|k: Vec<u8>| k@)
}

fn contains_key(keys: &Vec<Vec<u8>>, key: &[u8]) -> (found: bool)
    ensures
        found == byte_strings(keys@).contains(key@),
{
    let mut k: usize = 0;
    while k < keys.len()
        invariant
            k <= keys@.len(),
            forall|m: int| 0 <= m < k ==> byte_strings(keys@)[m] != key@,
        decreases keys@.len() - k,
    {
        if bytes_equal(keys[k].as_slice(), key) {
            assert(byte_strings(keys@)[k as int] == key@);
            return true;
        }
        k = k + 1;
    }
    false
}

fn parse_top_level_object(bytes: &[u8]) -> (result: Result<
    (usize, TopLevelFields),
    WebDriverBiDiJsonEnvelopeError,
>)
    ensures
        match result {
            Ok((end, fields)) => top_level_object(bytes@) == Ok::<
                (int, SpecTopLevelFields),
                WebDriverBiDiJsonEnvelopeError,
            >((end as int, fields@)) && end <= bytes@.len(),
            Err(e) => top_level_object(bytes@) == Err::<
                (int, SpecTopLevelFields),
                WebDriverBiDiJsonEnvelopeError,
            >(e),
        },
{
    let len = bytes.len();
    let k = skip_whitespace(bytes, 0);
    if !byte_is(bytes, k, OPEN_BRACE) {
        return Err(WebDriverBiDiJsonEnvelopeError::RootMustBeObject);
    }
    let k1 = skip_whitespace(bytes, k + 1);
    let mut fields = TopLevelFields::new();
    if byte_is(bytes, k1, CLOSE_BRACE) {
        return Ok((k1 + 1, fields));
    }
    let mut keys: Vec<Vec<u8>> = Vec::new();
    let mut j = k1;
    assert(byte_strings(keys@) =~= Seq::<Seq<u8>>::empty());
    loop
        invariant
            len == bytes@.len(),
            j <= bytes@.len(),
            top_level_object(bytes@) == top_level_members(
                bytes@,
                j as int,
                byte_strings(keys@),
                fields@,
            ),
        decreases bytes@.len() - j,
    {
        let k0 = skip_whitespace(bytes, j);
        proof {
            lemma_json_string_bounds(bytes@, k0 as int);
        }
        let (k1, key) = match parse_string(bytes, k0) {
            Some(parsed) => parsed,
            None => return Err(WebDriverBiDiJsonEnvelopeError::InvalidJson),
        };
        if contains_key(&keys, key.as_slice()) {
            return Err(WebDriverBiDiJsonEnvelopeError::DuplicateTopLevelMember);
        }
        let k2 = skip_whitespace(bytes, k1);
        if !byte_is(bytes, k2, COLON) {
            return Err(WebDriverBiDiJsonEnvelopeError::InvalidJson);
        }
        let k3 = skip_whitespace(bytes, k2 + 1);
        let (k4, value) = match parse_value(bytes, k3, 1) {
            Ok(parsed) => parsed,
            Err(e) => return Err(e),
        };
        fields.record(key.as_slice(), value);
        let k5 = skip_whitespace(bytes, k4);
        if byte_is(bytes, k5, CLOSE_BRACE) {
            return Ok((k5 + 1, fields));
        }
        if !byte_is(bytes, k5, COMMA) {
            return Err(WebDriverBiDiJsonEnvelopeError::InvalidJson);
        }
        let ghost old_keys = byte_strings(keys@);
        keys.push(key);
        assert(byte_strings(keys@) =~= old_keys.push(key@));
        j = k5 + 1;
    }
}

} // verus!

verus! {

/// The error codes as ASCII text are well-formed UTF-8.
proof fn lemma_error_code_utf8(code: Seq<u8>)
    requires
        is_webdriver_bidi_error_code(code),
    ensures
        valid_utf8(code),
{
    if code == lit("invalid argument") { reveal_strlit("invalid argument"); lemma_ascii_utf8("invalid argument"@); }
    if code == lit("invalid selector") { reveal_strlit("invalid selector"); lemma_ascii_utf8("invalid selector"@); }
    if code == lit("invalid session id") { reveal_strlit("invalid session id"); lemma_ascii_utf8("invalid session id"@); }
    if code == lit("invalid web extension") { reveal_strlit("invalid web extension"); lemma_ascii_utf8("invalid web extension"@); }
    if code == lit("move target out of bounds") { reveal_strlit("move target out of bounds"); lemma_ascii_utf8("move target out of bounds"@); }
    if code == lit("no such alert") { reveal_strlit("no such alert"); lemma_ascii_utf8("no such alert"@); }
    if code == lit("no such network collector") { reveal_strlit("no such network collector"); lemma_ascii_utf8("no such network collector"@); }
    if code == lit("no such element") { reveal_strlit("no such element"); lemma_ascii_utf8("no such element"@); }
    if code == lit("no such frame") { reveal_strlit("no such frame"); lemma_ascii_utf8("no such frame"@); }
    if code == lit("no such handle") { reveal_strlit("no such handle"); lemma_ascii_utf8("no such handle"@); }
    if code == lit("no such history entry") { reveal_strlit("no such history entry"); lemma_ascii_utf8("no such history entry"@); }
    if code == lit("no such intercept") { reveal_strlit("no such intercept"); lemma_ascii_utf8("no such intercept"@); }
    if code == lit("no such network data") { reveal_strlit("no such network data"); lemma_ascii_utf8("no such network data"@); }
    if code == lit("no such node") { reveal_strlit("no such node"); lemma_ascii_utf8("no such node"@); }
    if code == lit("no such request") { reveal_strlit("no such request"); lemma_ascii_utf8("no such request"@); }
    if code == lit("no such screencast") { reveal_strlit("no such screencast"); lemma_ascii_utf8("no such screencast"@); }
    if code == lit("no such script") { reveal_strlit("no such script"); lemma_ascii_utf8("no such script"@); }
    if code == lit("no such storage partition") { reveal_strlit("no such storage partition"); lemma_ascii_utf8("no such storage partition"@); }
    if code == lit("no such user context") { reveal_strlit("no such user context"); lemma_ascii_utf8("no such user context"@); }
    if code == lit("no such web extension") { reveal_strlit("no such web extension"); lemma_ascii_utf8("no such web extension"@); }
    if code == lit("session not created") { reveal_strlit("session not created"); lemma_ascii_utf8("session not created"@); }
    if code == lit("unable to capture screen") { reveal_strlit("unable to capture screen"); lemma_ascii_utf8("unable to capture screen"@); }
    if code == lit("unable to close browser") { reveal_strlit("unable to close browser"); lemma_ascii_utf8("unable to close browser"@); }
    if code == lit("unable to set cookie") { reveal_strlit("unable to set cookie"); lemma_ascii_utf8("unable to set cookie"@); }
    if code == lit("unable to set file input") { reveal_strlit("unable to set file input"); lemma_ascii_utf8("unable to set file input"@); }
    if code == lit("unavailable network data") { reveal_strlit("unavailable network data"); lemma_ascii_utf8("unavailable network data"@); }
    if code == lit("underspecified storage partition") { reveal_strlit("underspecified storage partition"); lemma_ascii_utf8("underspecified storage partition"@); }
    if code == lit("unknown command") { reveal_strlit("unknown command"); lemma_ascii_utf8("unknown command"@); }
    if code == lit("unknown error") { reveal_strlit("unknown error"); lemma_ascii_utf8("unknown error"@); }
    if code == lit("unsupported operation") { reveal_strlit("unsupported operation"); lemma_ascii_utf8("unsupported operation"@); }
}

fn matches_literal(value: &[u8], literal: &'static str) -> (equal: bool)
    requires
        vstd::string::is_ascii(literal),
    ensures
        equal == (value@ == lit(literal)),
{
    bytes_equal(value, ascii_literal(literal))
}

/// Whether `value` is one of the WebDriver BiDi protocol error codes.
fn is_error_code(value: &[u8]) -> (known: bool)
    ensures
        known == is_webdriver_bidi_error_code(value@),
{
    proof {
        reveal_strlit("invalid argument");
        reveal_strlit("invalid selector");
        reveal_strlit("invalid session id");
        reveal_strlit("invalid web extension");
        reveal_strlit("move target out of bounds");
        reveal_strlit("no such alert");
        reveal_strlit("no such network collector");
        reveal_strlit("no such element");
        reveal_strlit("no such frame");
        reveal_strlit("no such handle");
        reveal_strlit("no such history entry");
        reveal_strlit("no such intercept");
        reveal_strlit("no such network data");
        reveal_strlit("no such node");
        reveal_strlit("no such request");
        reveal_strlit("no such screencast");
        reveal_strlit("no such script");
        reveal_strlit("no such storage partition");
        reveal_strlit("no such user context");
        reveal_strlit("no such web extension");
        reveal_strlit("session not created");
        reveal_strlit("unable to capture screen");
        reveal_strlit("unable to close browser");
        reveal_strlit("unable to set cookie");
        reveal_strlit("unable to set file input");
        reveal_strlit("unavailable network data");
        reveal_strlit("underspecified storage partition");
        reveal_strlit("unknown command");
        reveal_strlit("unknown error");
        reveal_strlit("unsupported operation");
    }
    matches_literal(value, "invalid argument") || matches_literal(value, "invalid selector")
        || matches_literal(value, "invalid session id") || matches_literal(value, "invalid web extension")
        || matches_literal(value, "move target out of bounds") || matches_literal(value, "no such alert")
        || matches_literal(value, "no such network collector") || matches_literal(value, "no such element")
        || matches_literal(value, "no such frame") || matches_literal(value, "no such handle")
        || matches_literal(value, "no such history entry") || matches_literal(value, "no such intercept")
        || matches_literal(value, "no such network data") || matches_literal(value, "no such node")
        || matches_literal(value, "no such request") || matches_literal(value, "no such screencast")
        || matches_literal(value, "no such script") || matches_literal(value, "no such storage partition")
        || matches_literal(value, "no such user context") || matches_literal(value, "no such web extension")
        || matches_literal(value, "session not created") || matches_literal(value, "unable to capture screen")
        || matches_literal(value, "unable to close browser") || matches_literal(value, "unable to set cookie")
        || matches_literal(value, "unable to set file input") || matches_literal(value, "unavailable network data")
        || matches_literal(value, "underspecified storage partition") || matches_literal(value, "unknown command")
        || matches_literal(value, "unknown error") || matches_literal(value, "unsupported operation")
}

fn find_byte(bytes: &[u8], b: u8) -> (index: Option<usize>)
    ensures
        match index {
            Some(p) => first_index_of(bytes@, b, 0) == Some(p as int) && p < bytes@.len(),
            None => first_index_of(bytes@, b, 0) is None,
        },
{
    let mut k: usize = 0;
    while k < bytes.len()
        invariant
            k <= bytes@.len(),
            first_index_of(bytes@, b, k as int) == first_index_of(bytes@, b, 0),
        decreases bytes@.len() - k,
    {
        if bytes[k] == b {
            return Some(k);
        }
        k = k + 1;
    }
    None
}

fn event_method_is_valid(method: &[u8]) -> (valid: bool)
    ensures
        valid == is_event_method(method@),
{
    let n = method.len();
    match find_byte(method, DOT) {
        Some(p) => p > 0 && p + 1 < n,
        None => false,
    }
}

} // verus!

verus! {

/// Credential-minimal classification of one complete WebDriver BiDi local-end JSON envelope.
///
/// Result and parameter bodies are validated and discarded. The event method and the protocol
/// error code are kept as UTF-8 bytes, so a debug rendering never shows them as text.
#[derive(Debug, PartialEq, Eq)]
pub struct WebDriverBiDiJsonEnvelope {
    kind: WebDriverBiDiJsonEnvelopeKind,
    command_id: Option<u64>,
    method: Option<Vec<u8>>,
    error_code: Option<Vec<u8>>,
}

/// How a classified envelope is routed: a command response (with its id, when correlatable) or an
/// event.
#[derive(Clone, Copy, Debug, PartialEq, Eq)]
pub enum WebDriverBiDiJsonEnvelopeRouting {
    /// A successful command response.
    CommandSuccess {
        /// Command identifier of the response.
        command_id: u64,
    },
    /// A protocol-error response; `None` when its `id` is `null`.
    CommandError {
        /// Command identifier of the response, when present.
        command_id: Option<u64>,
    },
    /// An event.
    Event,
}

spec fn option_bytes_view(v: Option<Vec<u8>>) -> Option<Seq<u8>> {
    match v {
        Some(b) => Some(b@),
        None => None,
    }
}

impl View for WebDriverBiDiJsonEnvelope {
    type V = SpecEnvelope;

    closed spec fn view(&self) -> SpecEnvelope {
        SpecEnvelope {
            kind: self.kind,
            command_id: self.command_id,
            method: option_bytes_view(self.method),
            error_code: option_bytes_view(self.error_code),
        }
    }
}

/// Every envelope the classifier produces has this shape.
pub open spec fn envelope_well_formed(e: SpecEnvelope) -> bool {
    &&& e.method matches Some(m) ==> valid_utf8(m)
    &&& e.error_code matches Some(c) ==> valid_utf8(c)
    &&& (e.kind == WebDriverBiDiJsonEnvelopeKind::Success) ==> e.command_id is Some && e.method
        is None && e.error_code is None
    &&& (e.kind == WebDriverBiDiJsonEnvelopeKind::Error) ==> e.method is None && e.error_code is Some
    &&& (e.kind == WebDriverBiDiJsonEnvelopeKind::Event) ==> e.command_id is None && e.method is Some
        && e.error_code is None
}

/// The routing of a classified envelope.
pub open spec fn routing_of(e: SpecEnvelope) -> WebDriverBiDiJsonEnvelopeRouting {
    match e.kind {
        WebDriverBiDiJsonEnvelopeKind::Success => WebDriverBiDiJsonEnvelopeRouting::CommandSuccess {
            command_id: e.command_id.unwrap(),
        },
        WebDriverBiDiJsonEnvelopeKind::Error => WebDriverBiDiJsonEnvelopeRouting::CommandError {
            command_id: e.command_id,
        },
        WebDriverBiDiJsonEnvelopeKind::Event => WebDriverBiDiJsonEnvelopeRouting::Event,
    }
}

fn required_text(value: Option<JsonValue>, member: &'static str) -> (result: Result<
    Vec<u8>,
    WebDriverBiDiJsonEnvelopeError,
>)
    ensures
        match result {
            Ok(t) => required_text_spec(option_value_view(value), member) == Ok::<
                Seq<u8>,
                WebDriverBiDiJsonEnvelopeError,
            >(t@),
            Err(e) => required_text_spec(option_value_view(value), member) == Err::<
                Seq<u8>,
                WebDriverBiDiJsonEnvelopeError,
            >(e),
        },
{
    match value {
        None => Err(WebDriverBiDiJsonEnvelopeError::MissingRequiredMember { member }),
        Some(JsonValue::Text(text)) => Ok(text),
        Some(_) => Err(WebDriverBiDiJsonEnvelopeError::InvalidMember { member }),
    }
}

fn require_text_value(value: &JsonValue, member: &'static str) -> (result: Result<
    (),
    WebDriverBiDiJsonEnvelopeError,
>)
    ensures
        result is Ok <==> value@ is Text,
        result matches Err(e) ==> e == invalid(member),
{
    match value {
        JsonValue::Text(_) => Ok(()),
        _ => Err(WebDriverBiDiJsonEnvelopeError::InvalidMember { member }),
    }
}

fn required_js_uint(value: Option<JsonValue>, member: &'static str) -> (result: Result<
    u64,
    WebDriverBiDiJsonEnvelopeError,
>)
    ensures
        match option_value_view(value) {
            None => result == Err::<u64, WebDriverBiDiJsonEnvelopeError>(missing(member)),
            Some(SpecJsonValue::Number(Some(n))) => result == Ok::<
                u64,
                WebDriverBiDiJsonEnvelopeError,
            >(n),
            Some(_) => result == Err::<u64, WebDriverBiDiJsonEnvelopeError>(invalid(member)),
        },
{
    match value {
        None => Err(WebDriverBiDiJsonEnvelopeError::MissingRequiredMember { member }),
        Some(JsonValue::Number(Some(number))) => Ok(number),
        Some(_) => Err(WebDriverBiDiJsonEnvelopeError::InvalidMember { member }),
    }
}

fn nullable_js_uint(value: Option<JsonValue>, member: &'static str) -> (result: Result<
    Option<u64>,
    WebDriverBiDiJsonEnvelopeError,
>)
    ensures
        match option_value_view(value) {
            None => result == Err::<Option<u64>, WebDriverBiDiJsonEnvelopeError>(missing(member)),
            Some(SpecJsonValue::Null) => result == Ok::<
                Option<u64>,
                WebDriverBiDiJsonEnvelopeError,
            >(None),
            Some(SpecJsonValue::Number(Some(n))) => result == Ok::<
                Option<u64>,
                WebDriverBiDiJsonEnvelopeError,
            >(Some(n)),
            Some(_) => result == Err::<Option<u64>, WebDriverBiDiJsonEnvelopeError>(
                invalid(member),
            ),
        },
{
    match value {
        None => Err(WebDriverBiDiJsonEnvelopeError::MissingRequiredMember { member }),
        Some(JsonValue::Null) => Ok(None),
        Some(JsonValue::Number(Some(number))) => Ok(Some(number)),
        Some(_) => Err(WebDriverBiDiJsonEnvelopeError::InvalidMember { member }),
    }
}

fn require_object(value: Option<JsonValue>, member: &'static str) -> (result: Result<
    (),
    WebDriverBiDiJsonEnvelopeError,
>)
    ensures
        match result {
            Ok(_) => require_object_spec(option_value_view(value), member) is Ok,
            Err(e) => require_object_spec(option_value_view(value), member) == Err::<
                (),
                WebDriverBiDiJsonEnvelopeError,
            >(e),
        },
{
    match value {
        None => Err(WebDriverBiDiJsonEnvelopeError::MissingRequiredMember { member }),
        Some(JsonValue::Object) => Ok(()),
        Some(_) => Err(WebDriverBiDiJsonEnvelopeError::InvalidMember { member }),
    }
}

impl TopLevelFields {
    fn into_envelope(self) -> (result: Result<WebDriverBiDiJsonEnvelope, WebDriverBiDiJsonEnvelopeError>)
        ensures
            match result {
                Ok(e) => envelope_of_fields(self@) == Ok::<
                    SpecEnvelope,
                    WebDriverBiDiJsonEnvelopeError,
                >(e@),
                Err(x) => envelope_of_fields(self@) == Err::<
                    SpecEnvelope,
                    WebDriverBiDiJsonEnvelopeError,
                >(x),
            },
    {
        proof {
            reveal_strlit("success");
            reveal_strlit("error");
            reveal_strlit("event");
        }
        let kind = match &self.envelope_type {
            None => return Err(WebDriverBiDiJsonEnvelopeError::MissingRequiredMember { member: "type" }),
            Some(JsonValue::Text(envelope_type)) => {
                if matches_literal(envelope_type.as_slice(), "success") {
                    WebDriverBiDiJsonEnvelopeKind::Success
                } else if matches_literal(envelope_type.as_slice(), "error") {
                    WebDriverBiDiJsonEnvelopeKind::Error
                } else if matches_literal(envelope_type.as_slice(), "event") {
                    WebDriverBiDiJsonEnvelopeKind::Event
                } else {
                    return Err(WebDriverBiDiJsonEnvelopeError::UnsupportedEnvelopeType);
                }
            },
            Some(_) => return Err(WebDriverBiDiJsonEnvelopeError::InvalidMember { member: "type" }),
        };
        match kind {
            WebDriverBiDiJsonEnvelopeKind::Success => self.into_success(),
            WebDriverBiDiJsonEnvelopeKind::Error => self.into_error(),
            WebDriverBiDiJsonEnvelopeKind::Event => self.into_event(),
        }
    }

    fn into_success(self) -> (result: Result<WebDriverBiDiJsonEnvelope, WebDriverBiDiJsonEnvelopeError>)
        requires
            self@.envelope_type matches Some(SpecJsonValue::Text(t)) && t == lit("success"),
        ensures
            match result {
                Ok(e) => envelope_of_fields(self@) == Ok::<
                    SpecEnvelope,
                    WebDriverBiDiJsonEnvelopeError,
                >(e@),
                Err(x) => envelope_of_fields(self@) == Err::<
                    SpecEnvelope,
                    WebDriverBiDiJsonEnvelopeError,
                >(x),
            },
    {
        let command_id = match required_js_uint(self.id, "id") {
            Ok(id) => id,
            Err(e) => return Err(e),
        };
        match require_object(self.result, "result") {
            Ok(_) => {},
            Err(e) => return Err(e),
        }
        Ok(
            WebDriverBiDiJsonEnvelope {
                kind: WebDriverBiDiJsonEnvelopeKind::Success,
                command_id: Some(command_id),
                method: None,
                error_code: None,
            },
        )
    }

    fn into_error(self) -> (result: Result<WebDriverBiDiJsonEnvelope, WebDriverBiDiJsonEnvelopeError>)
        requires
            self@.envelope_type matches Some(SpecJsonValue::Text(t)) && t == lit("error") && t != lit(
                "success",
            ),
        ensures
            match result {
                Ok(e) => envelope_of_fields(self@) == Ok::<
                    SpecEnvelope,
                    WebDriverBiDiJsonEnvelopeError,
                >(e@),
                Err(x) => envelope_of_fields(self@) == Err::<
                    SpecEnvelope,
                    WebDriverBiDiJsonEnvelopeError,
                >(x),
            },
    {
        let ghost fields = self@;
        let command_id = match nullable_js_uint(self.id, "id") {
            Ok(id) => id,
            Err(e) => return Err(e),
        };
        let error_code = match required_text(self.error, "error") {
            Ok(code) => code,
            Err(e) => return Err(e),
        };
        match required_text(self.message, "message") {
            Ok(_) => {},
            Err(e) => return Err(e),
        }
        if let Some(stacktrace) = &self.stacktrace {
            match require_text_value(stacktrace, "stacktrace") {
                Ok(_) => {},
                Err(e) => return Err(e),
            }
        }
        if !is_error_code(error_code.as_slice()) {
            return Err(WebDriverBiDiJsonEnvelopeError::InvalidMember { member: "error" });
        }
        proof {
            lemma_error_code_utf8(error_code@);
        }
        Ok(
            WebDriverBiDiJsonEnvelope {
                kind: WebDriverBiDiJsonEnvelopeKind::Error,
                command_id,
                method: None,
                error_code: Some(error_code),
            },
        )
    }

    fn into_event(self) -> (result: Result<WebDriverBiDiJsonEnvelope, WebDriverBiDiJsonEnvelopeError>)
        requires
            self@.envelope_type matches Some(SpecJsonValue::Text(t)) && t == lit("event") && t != lit(
                "success",
            ) && t != lit("error"),
        ensures
            match result {
                Ok(e) => envelope_of_fields(self@) == Ok::<
                    SpecEnvelope,
                    WebDriverBiDiJsonEnvelopeError,
                >(e@),
                Err(x) => envelope_of_fields(self@) == Err::<
                    SpecEnvelope,
                    WebDriverBiDiJsonEnvelopeError,
                >(x),
            },
    {
        let method = match required_text(self.method, "method") {
            Ok(method) => method,
            Err(e) => return Err(e),
        };
        match require_object(self.params, "params") {
            Ok(_) => {},
            Err(e) => return Err(e),
        }
        if !event_method_is_valid(method.as_slice()) {
            return Err(WebDriverBiDiJsonEnvelopeError::InvalidMember { member: "method" });
        }
        if str_from_utf8(method.as_slice()).is_none() {
            return Err(WebDriverBiDiJsonEnvelopeError::InvalidText { member: "method" });
        }
        Ok(
            WebDriverBiDiJsonEnvelope {
                kind: WebDriverBiDiJsonEnvelopeKind::Event,
                command_id: None,
                method: Some(method),
                error_code: None,
            },
        )
    }
}

} // verus!

verus! {

impl WebDriverBiDiJsonEnvelope {
    /// Every envelope value is well formed.
    #[verifier::type_invariant]
    pub open spec fn well_formed(&self) -> bool {
        envelope_well_formed(self@)
    }

    /// Parse and classify the UTF-8 bytes of one complete document.
    fn parse_bytes(bytes: &[u8]) -> (result: Result<Self, WebDriverBiDiJsonEnvelopeError>)
        ensures
            match result {
                Ok(e) => parse_envelope(bytes@) == Ok::<SpecEnvelope, WebDriverBiDiJsonEnvelopeError>(
                    e@,
                ),
                Err(x) => parse_envelope(bytes@) == Err::<
                    SpecEnvelope,
                    WebDriverBiDiJsonEnvelopeError,
                >(x),
            },
    {
        let (end, fields) = match parse_top_level_object(bytes) {
            Ok(parsed) => parsed,
            Err(e) => return Err(e),
        };
        let tail = skip_whitespace(bytes, end);
        if tail != bytes.len() {
            return Err(WebDriverBiDiJsonEnvelopeError::InvalidJson);
        }
        fields.into_envelope()
    }

    /// Parse and classify one already bounded, validated UTF-8 WebSocket text message.
    ///
    /// This validates the complete RFC 8259 JSON grammar, rejects duplicate top-level member names
    /// and excessive nesting, then enforces only the common local-end envelope shape.
    pub fn parse(message: &WebDriverBiDiWebSocketTextMessage) -> (result: Result<
        Self,
        WebDriverBiDiJsonEnvelopeError,
    >)
        ensures
            match result {
                Ok(e) => parse_envelope(message.bytes()) == Ok::<
                    SpecEnvelope,
                    WebDriverBiDiJsonEnvelopeError,
                >(e@),
                Err(x) => parse_envelope(message.bytes()) == Err::<
                    SpecEnvelope,
                    WebDriverBiDiJsonEnvelopeError,
                >(x),
            },
    {
        Self::parse_bytes(message.as_bytes())
    }

    /// Parse and classify one UTF-8 document.
    pub fn parse_str(text: &str) -> (result: Result<Self, WebDriverBiDiJsonEnvelopeError>)
        ensures
            match result {
                Ok(e) => parse_envelope(encode_utf8(text@)) == Ok::<
                    SpecEnvelope,
                    WebDriverBiDiJsonEnvelopeError,
                >(e@),
                Err(x) => parse_envelope(encode_utf8(text@)) == Err::<
                    SpecEnvelope,
                    WebDriverBiDiJsonEnvelopeError,
                >(x),
            },
    {
        Self::parse_bytes(text.as_bytes())
    }

    /// Return the classified local-end envelope kind.
    pub fn kind(&self) -> (kind: WebDriverBiDiJsonEnvelopeKind)
        ensures
            kind == self@.kind,
    {
        self.kind
    }

    /// Return the command identifier for success and correlatable error responses; events and
    /// error responses whose `id` is `null` return `None`.
    pub fn command_id(&self) -> (id: Option<u64>)
        ensures
            id == self@.command_id,
    {
        self.command_id
    }

    /// Borrow the event method when this is an event envelope.
    pub fn method(&self) -> (method: Option<&str>)
        ensures
            match self@.method {
                Some(m) => method matches Some(t) && t@ == decode_utf8(m),
                None => method is None,
            },
    {
        proof {
            use_type_invariant(self);
        }
        match &self.method {
            Some(m) => str_from_utf8(m.as_slice()),
            None => None,
        }
    }

    /// Borrow the protocol error code when this is an error envelope.
    pub fn error_code(&self) -> (code: Option<&str>)
        ensures
            match self@.error_code {
                Some(c) => code matches Some(t) && t@ == decode_utf8(c),
                None => code is None,
            },
    {
        proof {
            use_type_invariant(self);
        }
        match &self.error_code {
            Some(c) => str_from_utf8(c.as_slice()),
            None => None,
        }
    }

    /// Return how this envelope is routed.
    pub fn routing(&self) -> (routing: WebDriverBiDiJsonEnvelopeRouting)
        ensures
            routing == routing_of(self@),
    {
        proof {
            use_type_invariant(self);
        }
        match self.kind {
            WebDriverBiDiJsonEnvelopeKind::Success => {
                let command_id = match self.command_id {
                    Some(id) => id,
                    None => 0,
                };
                WebDriverBiDiJsonEnvelopeRouting::CommandSuccess { command_id }
            },
            WebDriverBiDiJsonEnvelopeKind::Error => WebDriverBiDiJsonEnvelopeRouting::CommandError {
                command_id: self.command_id,
            },
            WebDriverBiDiJsonEnvelopeKind::Event => WebDriverBiDiJsonEnvelopeRouting::Event,
        }
    }
}

/// Every envelope that classification produces is well formed.
pub proof fn lemma_parsed_envelope_well_formed(s: Seq<u8>)
    ensures
        parse_envelope(s) matches Ok(e) ==> envelope_well_formed(e),
{
    if let Ok(e) = parse_envelope(s) {
        if let Some(c) = e.error_code {
            lemma_error_code_utf8(c);
        }
    }
}

} // verus!
