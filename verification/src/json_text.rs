//! Lexical pieces of RFC 8259 JSON shared by every WebDriver BiDi parser in this crate:
//! insignificant whitespace, literal names, hexadecimal escapes, and string decoding.
//!
//! Every parser works on the UTF-8 bytes of an already validated text message. Decoded string
//! contents are produced as UTF-8 bytes: plain characters are copied verbatim, simple escapes map
//! to their single byte, and `\u` escapes (including surrogate pairs) are re-encoded as UTF-8.

use vstd::prelude::*;
use vstd::utf8::*;

verus! {

/// ASCII bytes of the JSON grammar: `"`.
pub const QUOTE: u8 = 0x22;
/// `\`.
pub const BACKSLASH: u8 = 0x5c;
/// `/`.
pub const SLASH: u8 = 0x2f;
/// `{`.
pub const OPEN_BRACE: u8 = 0x7b;
/// `}`.
pub const CLOSE_BRACE: u8 = 0x7d;
/// `[`.
pub const OPEN_BRACKET: u8 = 0x5b;
/// `]`.
pub const CLOSE_BRACKET: u8 = 0x5d;
/// `:`.
pub const COLON: u8 = 0x3a;
/// `,`.
pub const COMMA: u8 = 0x2c;
/// `-`.
pub const MINUS: u8 = 0x2d;
/// `+`.
pub const PLUS: u8 = 0x2b;
/// `.`.
pub const DOT: u8 = 0x2e;
/// `0`.
pub const DIGIT_ZERO: u8 = 0x30;
/// `1`.
pub const DIGIT_ONE: u8 = 0x31;
/// `9`.
pub const DIGIT_NINE: u8 = 0x39;
/// `e`.
pub const LOWER_E: u8 = 0x65;
/// `E`.
pub const UPPER_E: u8 = 0x45;
/// `n`.
pub const LOWER_N: u8 = 0x6e;
/// `t`.
pub const LOWER_T: u8 = 0x74;
/// `f`.
pub const LOWER_F: u8 = 0x66;
/// `u`.
pub const LOWER_U: u8 = 0x75;
/// `b`.
pub const LOWER_B: u8 = 0x62;
/// `r`.
pub const LOWER_R: u8 = 0x72;

/// JSON insignificant whitespace: space, horizontal tab, line feed, carriage return.
pub open spec fn is_json_whitespace(b: u8) -> bool {
    b == 0x20 || b == 0x09 || b == 0x0a || b == 0x0d
}

/// An ASCII decimal digit.
pub open spec fn is_digit(b: u8) -> bool {
    DIGIT_ZERO <= b <= DIGIT_NINE
}

/// The byte at `i`, when `i` lies inside `s`.
pub open spec fn byte_at(s: Seq<u8>, i: int) -> Option<u8> {
    if 0 <= i < s.len() {
        Some(s[i])
    } else {
        None
    }
}

/// The first position at or after `i` that does not hold JSON whitespace.
pub open spec fn ws_end(s: Seq<u8>, i: int) -> int
    decreases s.len() - i,
{
    if 0 <= i < s.len() && is_json_whitespace(s[i]) {
        ws_end(s, i + 1)
    } else {
        i
    }
}

/// Skipping whitespace moves forward, stays within the text, and passes only whitespace.
pub proof fn lemma_ws_end(s: Seq<u8>, i: int)
    ensures
        i <= ws_end(s, i),
        0 <= i <= s.len() ==> ws_end(s, i) <= s.len(),
        forall|k: int| i <= k < ws_end(s, i) ==> is_json_whitespace(#[trigger] s[k]),
        ws_end(s, i) < s.len() && 0 <= i ==> !is_json_whitespace(s[ws_end(s, i)]),
    decreases s.len() - i,
{
    if 0 <= i < s.len() && is_json_whitespace(s[i]) {
        lemma_ws_end(s, i + 1);
    }
}

/// Advance past JSON whitespace starting at `start`.
pub fn skip_whitespace(bytes: &[u8], start: usize) -> (end: usize)
    requires
        start <= bytes@.len(),
    ensures
        end == ws_end(bytes@, start as int),
        start <= end <= bytes@.len(),
{
    let mut index = start;
    while index < bytes.len() && (bytes[index] == 0x20 || bytes[index] == 0x09 || bytes[index]
        == 0x0a || bytes[index] == 0x0d)
        invariant
            start <= index <= bytes@.len(),
            ws_end(bytes@, index as int) == ws_end(bytes@, start as int),
        decreases bytes@.len() - index,
    {
        index = index + 1;
    }
    proof {
        lemma_ws_end(bytes@, start as int);
    }
    index
}

/// Whether `literal` occurs in `s` starting at `i`.
pub open spec fn has_literal_at(s: Seq<u8>, i: int, literal: Seq<u8>) -> bool {
    0 <= i && i + literal.len() <= s.len() && s.subrange(i, i + literal.len()) == literal
}

/// Check whether `literal` occurs in `bytes` at `start`.
pub fn literal_at(bytes: &[u8], start: usize, literal: &[u8]) -> (found: bool)
    ensures
        found == has_literal_at(bytes@, start as int, literal@),
{
    let len = bytes.len();
    if start > len || literal.len() > len - start {
        return false;
    }
    let mut k: usize = 0;
    while k < literal.len()
        invariant
            len == bytes@.len(),
            start + literal@.len() <= bytes@.len(),
            k <= literal@.len(),
            forall|m: int| 0 <= m < k ==> bytes@[start + m] == literal@[m],
        decreases literal@.len() - k,
    {
        if bytes[start + k] != literal[k] {
            assert(bytes@.subrange(start as int, start + literal@.len())[k as int] != literal@[k as int]);
            return false;
        }
        k = k + 1;
    }
    assert(bytes@.subrange(start as int, start + literal@.len()) =~= literal@);
    true
}

/// The ASCII bytes of a character sequence whose characters are all ASCII.
pub open spec fn ascii_bytes(chars: Seq<char>) -> Seq<u8> {
    Seq::new(chars.len(), |i: int| chars[i] as u8)
}

/// Borrow the UTF-8 bytes of an ASCII string literal.
pub fn ascii_literal(text: &'static str) -> (bytes: &'static [u8])
    requires
        vstd::string::is_ascii(text),
    ensures
        bytes@ == ascii_bytes(text@),
{
    broadcast use vstd::string::is_ascii_spec_bytes;

    let bytes = text.as_bytes();
    assert(bytes@ =~= ascii_bytes(text@));
    bytes
}

/// Compare two byte sequences for equality.
pub fn bytes_equal(left: &[u8], right: &[u8]) -> (equal: bool)
    ensures
        equal == (left@ == right@),
{
    if left.len() != right.len() {
        return false;
    }
    let mut k: usize = 0;
    while k < left.len()
        invariant
            left@.len() == right@.len(),
            k <= left@.len(),
            forall|m: int| 0 <= m < k ==> left@[m] == right@[m],
        decreases left@.len() - k,
    {
        if left[k] != right[k] {
            return false;
        }
        k = k + 1;
    }
    assert(left@ =~= right@);
    true
}

/// Value of one hexadecimal digit, either case.
pub open spec fn hex_digit_value(b: u8) -> Option<u16> {
    if DIGIT_ZERO <= b <= DIGIT_NINE {
        Some((b - DIGIT_ZERO) as u16)
    } else if 0x61 <= b <= 0x66 {
        Some((b - 0x61 + 10) as u16)
    } else if 0x41 <= b <= 0x46 {
        Some((b - 0x41 + 10) as u16)
    } else {
        None
    }
}

/// The value of the hexadecimal digits in `s[i..i + count]`, most significant first.
pub open spec fn hex_digits_value(s: Seq<u8>, i: int, count: nat) -> Option<nat>
    decreases count,
{
    if count == 0 {
        Some(0)
    } else {
        match hex_digits_value(s, i, (count - 1) as nat) {
            None => None,
            Some(high) => match byte_at(s, i + count - 1) {
                Some(b) => match hex_digit_value(b) {
                    Some(d) => Some(high * 16 + d as nat),
                    None => None,
                },
                None => None,
            },
        }
    }
}

/// The four hexadecimal digits of a `\u` escape starting at `i`.
pub open spec fn hex_quad(s: Seq<u8>, i: int) -> Option<u16> {
    match hex_digits_value(s, i, 4) {
        Some(v) => Some(v as u16),
        None => None,
    }
}

proof fn lemma_hex_digits_bound(s: Seq<u8>, i: int, count: nat)
    ensures
        hex_digits_value(s, i, count) matches Some(v) ==> v < pow16(count),
    decreases count,
{
    if count > 0 {
        lemma_hex_digits_bound(s, i, (count - 1) as nat);
    }
}

/// Sixteen to the power `count`.
pub open spec fn pow16(count: nat) -> nat
    decreases count,
{
    if count == 0 {
        1
    } else {
        16 * pow16((count - 1) as nat)
    }
}

fn hex_digit(b: u8) -> (digit: Option<u16>)
    ensures
        digit == hex_digit_value(b),
{
    if DIGIT_ZERO <= b && b <= DIGIT_NINE {
        Some((b - DIGIT_ZERO) as u16)
    } else if 0x61 <= b && b <= 0x66 {
        Some((b - 0x61 + 10) as u16)
    } else if 0x41 <= b && b <= 0x46 {
        Some((b - 0x41 + 10) as u16)
    } else {
        None
    }
}

/// Read four hexadecimal digits at `start`.
pub fn parse_hex_u16(bytes: &[u8], start: usize) -> (value: Option<u16>)
    ensures
        value == hex_quad(bytes@, start as int),
{
    let mut value: u16 = 0;
    let mut count: usize = 0;
    while count < 4
        invariant
            count <= 4,
            hex_digits_value(bytes@, start as int, count as nat) == Some(value as nat),
            value < pow16(count as nat),
        decreases 4 - count,
    {
        if start > bytes.len() || count >= bytes.len() - start {
            assert(byte_at(bytes@, start + count) is None);
            proof {
                lemma_hex_prefix_fails(bytes@, start as int, (count + 1) as nat, 4);
            }
            return None;
        }
        let digit = hex_digit(bytes[start + count]);
        match digit {
            None => {
                proof {
                    lemma_hex_prefix_fails(bytes@, start as int, (count + 1) as nat, 4);
                }
                return None;
            },
            Some(d) => {
                assert(pow16((count + 1) as nat) == 16 * pow16(count as nat));
                assert(value * 16 + d < 16 * pow16(count as nat)) by (nonlinear_arith)
                    requires
                        value < pow16(count as nat),
                        d < 16,
                ;
                assert(pow16(3) == 4096) by { reveal_with_fuel(pow16, 4); }
                value = value * 16 + d;
                count = count + 1;
            },
        }
    }
    proof {
        assert(pow16(4) == 65536) by { reveal_with_fuel(pow16, 5); }
    }
    Some(value)
}

proof fn lemma_hex_prefix_fails(s: Seq<u8>, i: int, failed: nat, count: nat)
    requires
        hex_digits_value(s, i, failed) is None,
        failed <= count,
    ensures
        hex_digits_value(s, i, count) is None,
    decreases count - failed,
{
    if failed < count {
        lemma_hex_prefix_fails(s, i, failed, (count - 1) as nat);
    }
}

/// Number of leading one bits of a byte; for a UTF-8 lead byte this is its sequence length.
pub open spec fn leading_ones_u8(b: u8) -> int {
    if b < 0x80 {
        0
    } else if b < 0xc0 {
        1
    } else if b < 0xe0 {
        2
    } else if b < 0xf0 {
        3
    } else if b < 0xf8 {
        4
    } else if b < 0xfc {
        5
    } else if b < 0xfe {
        6
    } else if b < 0xff {
        7
    } else {
        8
    }
}

fn leading_ones(b: u8) -> (count: usize)
    ensures
        count == leading_ones_u8(b),
{
    if b < 0x80 {
        0
    } else if b < 0xc0 {
        1
    } else if b < 0xe0 {
        2
    } else if b < 0xf0 {
        3
    } else if b < 0xf8 {
        4
    } else if b < 0xfc {
        5
    } else if b < 0xfe {
        6
    } else if b < 0xff {
        7
    } else {
        8
    }
}

/// The code point denoted by a `\u` escape whose hexadecimal digits start at `h`, and the position
/// after it. A high surrogate must be followed by `\u` and a low surrogate; a lone low surrogate
/// is rejected.
pub open spec fn unicode_escape(s: Seq<u8>, h: int) -> Option<(int, u32)> {
    match hex_quad(s, h) {
        None => None,
        Some(first) => if 0xd800 <= first <= 0xdbff {
            if byte_at(s, h + 4) == Some(BACKSLASH) && byte_at(s, h + 5) == Some(LOWER_U) {
                match hex_quad(s, h + 6) {
                    Some(second) => if 0xdc00 <= second <= 0xdfff {
                        Some(
                            (
                                h + 10,
                                (0x10000 + (first - 0xd800) * 1024 + (second - 0xdc00)) as u32,
                            ),
                        )
                    } else {
                        None
                    },
                    None => None,
                }
            } else {
                None
            }
        } else if 0xdc00 <= first <= 0xdfff {
            None
        } else {
            Some((h + 4, first as u32))
        },
    }
}

/// Decoded bytes of the escape whose selector byte is at `e` (just after the backslash), and the
/// position after it.
pub open spec fn escape_sequence(s: Seq<u8>, e: int) -> Option<(int, Seq<u8>)> {
    match byte_at(s, e) {
        None => None,
        Some(c) => if c == QUOTE {
            Some((e + 1, seq![QUOTE]))
        } else if c == BACKSLASH {
            Some((e + 1, seq![BACKSLASH]))
        } else if c == SLASH {
            Some((e + 1, seq![SLASH]))
        } else if c == LOWER_B {
            Some((e + 1, seq![0x08u8]))
        } else if c == LOWER_F {
            Some((e + 1, seq![0x0cu8]))
        } else if c == LOWER_N {
            Some((e + 1, seq![0x0au8]))
        } else if c == LOWER_R {
            Some((e + 1, seq![0x0du8]))
        } else if c == LOWER_T {
            Some((e + 1, seq![0x09u8]))
        } else if c == LOWER_U {
            match unicode_escape(s, e + 1) {
                Some((end, scalar)) => Some((end, encode_scalar(scalar))),
                None => None,
            }
        } else {
            None
        },
    }
}

/// Decode the remainder of a JSON string whose next unread byte is at `j`, with `acc` already
/// decoded. Yields the position after the closing quote and the decoded bytes.
pub open spec fn string_rest(s: Seq<u8>, j: int, acc: Seq<u8>) -> Option<(int, Seq<u8>)>
    decreases s.len() - j,
{
    if !(0 <= j < s.len()) {
        None
    } else {
        let b = s[j];
        if b == QUOTE {
            Some((j + 1, acc))
        } else if b == BACKSLASH {
            match escape_sequence(s, j + 1) {
                Some((k, decoded)) => if k > j {
                    string_rest(s, k, acc + decoded)
                } else {
                    None
                },
                None => None,
            }
        } else if b < 0x20 {
            None
        } else if b < 0x80 {
            string_rest(s, j + 1, acc.push(b))
        } else {
            let width = leading_ones_u8(b);
            if j + width <= s.len() {
                string_rest(s, j + width, acc + s.subrange(j, j + width))
            } else {
                None
            }
        }
    }
}

/// A complete JSON string starting with its opening quote at `i`: the position after the closing
/// quote and the decoded UTF-8 bytes.
pub open spec fn json_string(s: Seq<u8>, i: int) -> Option<(int, Seq<u8>)> {
    if byte_at(s, i) == Some(QUOTE) {
        string_rest(s, i + 1, seq![])
    } else {
        None
    }
}

/// The rest of a JSON string, when it parses, ends after its start and within the text.
pub proof fn lemma_string_rest_bounds(s: Seq<u8>, j: int, acc: Seq<u8>)
    ensures
        string_rest(s, j, acc) matches Some((end, _)) ==> j < end <= s.len(),
    decreases s.len() - j,
{
    if 0 <= j < s.len() {
        let b = s[j];
        if b == QUOTE {
        } else if b == BACKSLASH {
            match escape_sequence(s, j + 1) {
                Some((k, decoded)) => if k > j {
                    lemma_string_rest_bounds(s, k, acc + decoded);
                },
                None => {},
            }
        } else if b < 0x20 {
        } else if b < 0x80 {
            lemma_string_rest_bounds(s, j + 1, acc.push(b));
        } else {
            let width = leading_ones_u8(b);
            if j + width <= s.len() {
                lemma_string_rest_bounds(s, j + width, acc + s.subrange(j, j + width));
            }
        }
    }
}

/// A JSON string, when it parses, ends after its opening quote and within the text.
pub proof fn lemma_json_string_bounds(s: Seq<u8>, i: int)
    ensures
        json_string(s, i) matches Some((end, _)) ==> 0 <= i < end <= s.len(),
{
    lemma_string_rest_bounds(s, i + 1, seq![]);
}

/// The UTF-8 encoding of a Unicode scalar value.
pub fn encode_scalar_bytes(scalar: u32, output: &mut Vec<u8>)
    requires
        is_scalar(scalar),
    ensures
        final(output)@ == old(output)@ + encode_scalar(scalar),
{
    if scalar <= 0x7f {
        output.push((scalar & 0x7f) as u8);
    } else if scalar <= 0x7ff {
        output.push(0xc0 | ((scalar >> 6) & 0x1f) as u8);
        output.push(0x80 | (scalar & 0x3f) as u8);
    } else if scalar <= 0xffff {
        output.push(0xe0 | ((scalar >> 12) & 0x0f) as u8);
        output.push(0x80 | ((scalar >> 6) & 0x3f) as u8);
        output.push(0x80 | (scalar & 0x3f) as u8);
    } else {
        output.push(0xf0 | ((scalar >> 18) & 0x7) as u8);
        output.push(0x80 | ((scalar >> 12) & 0x3f) as u8);
        output.push(0x80 | ((scalar >> 6) & 0x3f) as u8);
        output.push(0x80 | (scalar & 0x3f) as u8);
    }
}

/// Decode a `\u` escape whose hexadecimal digits start at `start`.
pub fn parse_unicode_escape(bytes: &[u8], start: usize) -> (result: Option<(usize, u32)>)
    ensures
        match result {
            Some((end, scalar)) => unicode_escape(bytes@, start as int) == Some(
                (end as int, scalar),
            ) && is_scalar(scalar),
            None => unicode_escape(bytes@, start as int) is None,
        },
{
    let len = bytes.len();
    let first = match parse_hex_u16(bytes, start) {
        Some(v) => v,
        None => return None,
    };
    proof {
        lemma_hex_quad_bounds(bytes@, start as int);
    }
    if 0xd800 <= first && first <= 0xdbff {
        if bytes.len() - start < 6 || bytes[start + 4] != BACKSLASH || bytes[start + 5] != LOWER_U {
            return None;
        }
        let second = match parse_hex_u16(bytes, start + 6) {
            Some(v) => v,
            None => return None,
        };
        if !(0xdc00 <= second && second <= 0xdfff) {
            return None;
        }
        let scalar: u32 = 0x10000 + ((first as u32) - 0xd800) * 1024 + ((second as u32) - 0xdc00);
        Some((start + 10, scalar))
    } else if 0xdc00 <= first && first <= 0xdfff {
        None
    } else {
        Some((start + 4, first as u32))
    }
}

/// Decode the escape whose selector byte is at `start`, appending its bytes to `output`.
pub fn parse_escape(bytes: &[u8], start: usize, output: &mut Vec<u8>) -> (end: Option<usize>)
    ensures
        match end {
            Some(k) => escape_sequence(bytes@, start as int) matches Some((k2, decoded)) && k2
                == k as int && final(output)@ == old(output)@ + decoded,
            None => escape_sequence(bytes@, start as int) is None,
        },
{
    if start >= bytes.len() {
        return None;
    }
    let c = bytes[start];
    let simple: Option<u8> = if c == QUOTE {
        Some(QUOTE)
    } else if c == BACKSLASH {
        Some(BACKSLASH)
    } else if c == SLASH {
        Some(SLASH)
    } else if c == LOWER_B {
        Some(0x08)
    } else if c == LOWER_F {
        Some(0x0c)
    } else if c == LOWER_N {
        Some(0x0a)
    } else if c == LOWER_R {
        Some(0x0d)
    } else if c == LOWER_T {
        Some(0x09)
    } else {
        None
    };
    match simple {
        Some(decoded) => {
            output.push(decoded);
            Some(start + 1)
        },
        None => {
            if c != LOWER_U {
                return None;
            }
            match parse_unicode_escape(bytes, start + 1) {
                Some((end, scalar)) => {
                    encode_scalar_bytes(scalar, output);
                    Some(end)
                },
                None => None,
            }
        },
    }
}

/// Parse the JSON string whose opening quote is at `start`, returning the position after the
/// closing quote and the decoded UTF-8 bytes.
pub fn parse_string(bytes: &[u8], start: usize) -> (result: Option<(usize, Vec<u8>)>)
    ensures
        match result {
            Some((end, decoded)) => json_string(bytes@, start as int) == Some(
                (end as int, decoded@),
            ),
            None => json_string(bytes@, start as int) is None,
        },
{
    let len = bytes.len();
    if start >= len || bytes[start] != QUOTE {
        return None;
    }
    let mut output: Vec<u8> = Vec::new();
    let mut index = start + 1;
    assert(output@ =~= Seq::<u8>::empty());
    loop
        invariant
            len == bytes@.len(),
            start < index <= bytes@.len(),
            string_rest(bytes@, index as int, output@) == string_rest(
                bytes@,
                start + 1,
                Seq::<u8>::empty(),
            ),
            json_string(bytes@, start as int) == string_rest(
                bytes@,
                start + 1,
                Seq::<u8>::empty(),
            ),
        decreases bytes@.len() - index,
    {
        if index >= bytes.len() {
            return None;
        }
        let b = bytes[index];
        if b == QUOTE {
            return Some((index + 1, output));
        } else if b == BACKSLASH {
            match parse_escape(bytes, index + 1, &mut output) {
                Some(k) => {
                    if k <= index || k > bytes.len() {
                        proof {
                            lemma_escape_bounds(bytes@, index + 1);
                        }
                        return None;
                    }
                    index = k;
                },
                None => return None,
            }
        } else if b < 0x20 {
            return None;
        } else if b < 0x80 {
            output.push(b);
            index = index + 1;
        } else {
            let width = leading_ones(b);
            if width > bytes.len() - index {
                return None;
            }
            let mut k: usize = 0;
            let ghost before = output@;
            while k < width
                invariant
                    len == bytes@.len(),
                    k <= width,
                    index + width <= bytes@.len(),
                    output@ == before + bytes@.subrange(index as int, index + k),
                decreases width - k,
            {
                output.push(bytes[index + k]);
                k = k + 1;
                assert(output@ =~= before + bytes@.subrange(index as int, index + k));
            }
            index = index + width;
        }
    }
}

/// An escape sequence, when it parses, ends after its start and within the text.
pub proof fn lemma_escape_bounds(s: Seq<u8>, e: int)
    ensures
        escape_sequence(s, e) matches Some((k, _)) ==> e < k <= s.len(),
{
    match byte_at(s, e) {
        None => {},
        Some(c) => if c == LOWER_U {
            lemma_unicode_escape_bounds(s, e + 1);
        },
    }
}

/// A `\u` escape, when it parses, ends after its start and within the text.
pub proof fn lemma_unicode_escape_bounds(s: Seq<u8>, h: int)
    ensures
        unicode_escape(s, h) matches Some((k, _)) ==> h < k <= s.len(),
{
    lemma_hex_quad_bounds(s, h);
    lemma_hex_quad_bounds(s, h + 6);
}

/// Four hexadecimal digits, when they parse, lie within the text.
pub proof fn lemma_hex_quad_bounds(s: Seq<u8>, h: int)
    ensures
        hex_quad(s, h) is Some ==> 0 <= h && h + 4 <= s.len(),
{
    lemma_hex_digits_bounds(s, h, 4);
}

proof fn lemma_hex_digits_bounds(s: Seq<u8>, h: int, count: nat)
    ensures
        hex_digits_value(s, h, count) is Some && count > 0 ==> 0 <= h && h + count <= s.len(),
    decreases count,
{
    if count > 1 {
        lemma_hex_digits_bounds(s, h, (count - 1) as nat);
    }
}


/// ASCII text encodes to its own bytes, which are well-formed UTF-8 and decode back to it.
pub proof fn lemma_ascii_utf8(chars: Seq<char>)
    requires
        is_ascii_chars(chars),
    ensures
        ascii_bytes(chars) == encode_utf8(chars),
        valid_utf8(ascii_bytes(chars)),
        decode_utf8(ascii_bytes(chars)) == chars,
{
    is_ascii_chars_encode_utf8(chars);
    assert(ascii_bytes(chars) =~= encode_utf8(chars));
    encode_utf8_valid_utf8(chars);
    encode_utf8_decode_utf8(chars);
}


/// The decimal digits of `n`, most significant first, without leading zeros.
pub open spec fn decimal_digits(n: nat) -> Seq<u8>
    decreases n,
{
    if n < 10 {
        seq![(DIGIT_ZERO + n) as u8]
    } else {
        decimal_digits(n / 10).push((DIGIT_ZERO + n % 10) as u8)
    }
}

/// Bytes below 0x80 are ASCII characters: well-formed UTF-8 that decodes one character per byte.
pub proof fn lemma_ascii_bytes_utf8(bytes: Seq<u8>)
    requires
        forall|i: int| 0 <= i < bytes.len() ==> #[trigger] bytes[i] < 0x80,
    ensures
        valid_utf8(bytes),
        decode_utf8(bytes) == Seq::new(bytes.len(), |i: int| bytes[i] as char),
{
    let chars = Seq::new(bytes.len(), |i: int| bytes[i] as char);
    assert forall|i: int| 0 <= i < chars.len() implies '\0' <= #[trigger] chars[i] <= '\u{7f}' by {
        assert(bytes[i] < 0x80);
    }
    assert(is_ascii_chars(chars));
    assert(ascii_bytes(chars) =~= bytes) by {
        assert forall|i: int| 0 <= i < bytes.len() implies ascii_bytes(chars)[i] == bytes[i] by {
            assert(chars[i] as u8 == bytes[i]);
        }
    }
    lemma_ascii_utf8(chars);
}

proof fn lemma_decimal_digits_ascii(n: nat)
    ensures
        forall|i: int| 0 <= i < decimal_digits(n).len() ==> #[trigger] decimal_digits(n)[i] < 0x80,
        decimal_digits(n).len() >= 1,
    decreases n,
{
    if n >= 10 {
        lemma_decimal_digits_ascii(n / 10);
    }
}

/// Append the decimal digits of `n` to `output`.
pub fn push_decimal(output: &mut Vec<u8>, n: u64)
    ensures
        final(output)@ == old(output)@ + decimal_digits(n as nat),
    decreases n,
{
    if n >= 10 {
        push_decimal(output, n / 10);
    }
    output.push(DIGIT_ZERO + (n % 10) as u8);
    proof {
        if n >= 10 {
            assert(decimal_digits(n as nat) == decimal_digits((n / 10) as nat).push(
                (DIGIT_ZERO + n % 10) as u8,
            ));
        }
    }
}

/// The decimal text of `n`.
pub fn decimal_text(n: u64) -> (text: String)
    ensures
        encode_utf8(text@) == decimal_digits(n as nat),
        text@ == decode_utf8(decimal_digits(n as nat)),
{
    let mut digits: Vec<u8> = Vec::new();
    push_decimal(&mut digits, n);
    assert(digits@ =~= decimal_digits(n as nat));
    proof {
        lemma_decimal_digits_ascii(n as nat);
        lemma_ascii_bytes_utf8(digits@);
    }
    let ghost bytes = digits@;
    match crate::text_message::string_from_utf8(digits) {
        Some(text) => {
            proof {
                decode_utf8_encode_utf8(bytes);
            }
            text
        },
        None => {
            proof {
                assert(false);
            }
            String::new()
        },
    }
}

/// Whether two texts hold the same characters.
pub fn text_equal(left: &str, right: &str) -> (equal: bool)
    ensures
        equal == (left@ == right@),
{
    let left_bytes = left.as_bytes();
    let right_bytes = right.as_bytes();
    let equal = bytes_equal(left_bytes, right_bytes);
    proof {
        encode_utf8_decode_utf8(left@);
        encode_utf8_decode_utf8(right@);
        assert(left_bytes@ == encode_utf8(left@));
        assert(right_bytes@ == encode_utf8(right@));
    }
    equal
}

} // verus!
