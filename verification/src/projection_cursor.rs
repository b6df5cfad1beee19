//! A lenient JSON cursor used to project command-specific members out of a message that the
//! common envelope parser has already validated.
//!
//! The cursor only needs to find members and step over values it does not keep: numbers are
//! stepped over as any run of number characters, nesting is unbounded, and strings are decoded
//! exactly as the common parser decodes them.

use vstd::prelude::*;
use vstd::string::StringExecFns;
use vstd::utf8::*;

use crate::json_envelope::lit;
use crate::json_text::{
    ascii_literal, byte_at, encode_scalar_bytes, escape_sequence, has_literal_at, hex_quad,
    is_digit, json_string, lemma_escape_bounds, lemma_hex_quad_bounds, lemma_json_string_bounds,
    lemma_unicode_escape_bounds, lemma_ws_end, literal_at, parse_escape, parse_hex_u16,
    parse_string, parse_unicode_escape, skip_whitespace, unicode_escape, ws_end, CLOSE_BRACE,
    CLOSE_BRACKET, COLON, COMMA, DIGIT_NINE, DIGIT_ZERO, DOT, LOWER_E, LOWER_F, LOWER_N, LOWER_T,
    MINUS, OPEN_BRACE, OPEN_BRACKET, PLUS, QUOTE, UPPER_E,
};
use crate::text_message::{str_from_utf8, string_from_utf8};

verus! {

/// Bytes the lenient scanner treats as part of a number.
pub open spec fn is_number_byte(b: u8) -> bool {
    b == MINUS || b == PLUS || b == DOT || b == LOWER_E || b == UPPER_E || is_digit(b)
}

/// The end of the run of number bytes starting at `i`.
pub open spec fn number_run_end(s: Seq<u8>, i: int) -> int
    decreases s.len() - i,
{
    if 0 <= i < s.len() && is_number_byte(s[i]) {
        number_run_end(s, i + 1)
    } else {
        i
    }
}

/// A lenient number at `i`: a non-empty run of number bytes.
pub open spec fn lenient_number(s: Seq<u8>, i: int) -> Option<int> {
    let end = number_run_end(s, i);
    if end > i {
        Some(end)
    } else {
        None
    }
}

/// The end of one value at or after `i` (leading whitespace allowed), under the lenient grammar.
pub open spec fn lenient_value(s: Seq<u8>, i: int) -> Option<int>
    decreases s.len() - i, 1int,
{
    let k = ws_end(s, i);
    proof {
        lemma_ws_end(s, i);
    }
    match byte_at(s, k) {
        None => None,
        Some(b) => if b == QUOTE {
            match json_string(s, k) {
                Some((end, _)) => Some(end),
                None => None,
            }
        } else if b == OPEN_BRACE {
            lenient_object(s, k)
        } else if b == OPEN_BRACKET {
            lenient_array(s, k)
        } else if b == LOWER_T {
            if has_literal_at(s, k, lit("true")) {
                Some(k + 4)
            } else {
                None
            }
        } else if b == LOWER_F {
            if has_literal_at(s, k, lit("false")) {
                Some(k + 5)
            } else {
                None
            }
        } else if b == LOWER_N {
            if has_literal_at(s, k, lit("null")) {
                Some(k + 4)
            } else {
                None
            }
        } else if b == MINUS || is_digit(b) {
            lenient_number(s, k)
        } else {
            None
        },
    }
}

/// The end of the object whose `{` is at `k`, under the lenient grammar.
pub open spec fn lenient_object(s: Seq<u8>, k: int) -> Option<int>
    decreases s.len() - k, 0int,
{
    if !(0 <= k < s.len()) || s[k] != OPEN_BRACE {
        None
    } else {
        let k1 = ws_end(s, k + 1);
        proof {
            lemma_ws_end(s, k + 1);
        }
        if byte_at(s, k1) == Some(CLOSE_BRACE) {
            Some(k1 + 1)
        } else {
            lenient_object_members(s, k1)
        }
    }
}

/// The end of an object whose remaining members start at `j`, under the lenient grammar.
pub open spec fn lenient_object_members(s: Seq<u8>, j: int) -> Option<int>
    decreases s.len() - j, 2int,
{
    let k0 = ws_end(s, j);
    proof {
        lemma_ws_end(s, j);
        lemma_json_string_bounds(s, k0);
    }
    match json_string(s, k0) {
        None => None,
        Some((k1, _)) => {
            let k2 = ws_end(s, k1);
            proof {
                lemma_ws_end(s, k1);
            }
            if byte_at(s, k2) != Some(COLON) {
                None
            } else {
                match lenient_value(s, k2 + 1) {
                    None => None,
                    Some(k4) => {
                        let k5 = ws_end(s, k4);
                        if byte_at(s, k5) == Some(CLOSE_BRACE) {
                            Some(k5 + 1)
                        } else if byte_at(s, k5) == Some(COMMA) && k5 + 1 > j {
                            lenient_object_members(s, k5 + 1)
                        } else {
                            None
                        }
                    },
                }
            }
        },
    }
}

/// The end of the array whose `[` is at `k`, under the lenient grammar.
pub open spec fn lenient_array(s: Seq<u8>, k: int) -> Option<int>
    decreases s.len() - k, 0int,
{
    if !(0 <= k < s.len()) || s[k] != OPEN_BRACKET {
        None
    } else {
        let k1 = ws_end(s, k + 1);
        proof {
            lemma_ws_end(s, k + 1);
        }
        if byte_at(s, k1) == Some(CLOSE_BRACKET) {
            Some(k1 + 1)
        } else {
            lenient_array_items(s, k1)
        }
    }
}

/// The end of an array whose remaining items start at `j`, under the lenient grammar.
pub open spec fn lenient_array_items(s: Seq<u8>, j: int) -> Option<int>
    decreases s.len() - j, 2int,
{
    match lenient_value(s, j) {
        None => None,
        Some(k4) => {
            let k5 = ws_end(s, k4);
            if byte_at(s, k5) == Some(CLOSE_BRACKET) {
                Some(k5 + 1)
            } else if byte_at(s, k5) == Some(COMMA) && k5 + 1 > j {
                lenient_array_items(s, k5 + 1)
            } else {
                None
            }
        },
    }
}

/// A decoded JSON string at `i` as text: its end and characters, when its decoded bytes are
/// well-formed UTF-8.
pub open spec fn json_text_at(s: Seq<u8>, i: int) -> Option<(int, Seq<u8>)> {
    match json_string(s, i) {
        Some((end, decoded)) => if valid_utf8(decoded) {
            Some((end, decoded))
        } else {
            None
        },
        None => None,
    }
}

/// The name of the object member starting at or after `j` (leading whitespace allowed), followed
/// by `:`: the position of its value (after whitespace) and the decoded name.
pub open spec fn member_head(s: Seq<u8>, j: int) -> Option<(int, Seq<u8>)> {
    let k0 = ws_end(s, j);
    match json_string(s, k0) {
        None => None,
        Some((k1, key)) => {
            let k2 = ws_end(s, k1);
            if byte_at(s, k2) == Some(COLON) {
                Some((ws_end(s, k2 + 1), key))
            } else {
                None
            }
        },
    }
}

/// What follows a member value, after whitespace.
#[derive(Clone, Copy, Debug, PartialEq, Eq, Structural)]
pub enum MemberSeparator {
    /// `}`: the object ends.
    Close,
    /// `,`: another member follows.
    Comma,
    /// Anything else.
    Other,
}

/// The separator after a member value ending at `k`, and the position after it.
pub open spec fn member_separator(s: Seq<u8>, k: int) -> (MemberSeparator, int) {
    let k5 = ws_end(s, k);
    if byte_at(s, k5) == Some(CLOSE_BRACE) {
        (MemberSeparator::Close, k5 + 1)
    } else if byte_at(s, k5) == Some(COMMA) {
        (MemberSeparator::Comma, k5 + 1)
    } else {
        (MemberSeparator::Other, k5)
    }
}

proof fn lemma_number_run_end(s: Seq<u8>, i: int)
    ensures
        i <= number_run_end(s, i),
        0 <= i <= s.len() ==> number_run_end(s, i) <= s.len(),
    decreases s.len() - i,
{
    if 0 <= i < s.len() && is_number_byte(s[i]) {
        lemma_number_run_end(s, i + 1);
    }
}

fn number_end(bytes: &[u8], start: usize) -> (end: usize)
    requires
        start <= bytes@.len(),
    ensures
        end == number_run_end(bytes@, start as int),
        start <= end <= bytes@.len(),
{
    let mut index = start;
    while index < bytes.len() && (bytes[index] == MINUS || bytes[index] == PLUS || bytes[index]
        == DOT || bytes[index] == LOWER_E || bytes[index] == UPPER_E || (DIGIT_ZERO
        <= bytes[index] && bytes[index] <= DIGIT_NINE))
        invariant
            start <= index <= bytes@.len(),
            number_run_end(bytes@, index as int) == number_run_end(bytes@, start as int),
        decreases bytes@.len() - index,
    {
        index = index + 1;
    }
    index
}

fn byte_is(bytes: &[u8], index: usize, expected: u8) -> (found: bool)
    ensures
        found == (byte_at(bytes@, index as int) == Some(expected)),
{
    index < bytes.len() && bytes[index] == expected
}

fn literal_is(bytes: &[u8], start: usize, literal: &'static str) -> (found: bool)
    requires
        vstd::string::is_ascii(literal),
    ensures
        found == has_literal_at(bytes@, start as int, lit(literal)),
{
    literal_at(bytes, start, ascii_literal(literal))
}

/// Step over one value at or after `start`, returning its end.
pub fn skip_lenient_value(bytes: &[u8], start: usize) -> (end: Option<usize>)
    requires
        start <= bytes@.len(),
    ensures
        match end {
            Some(e) => lenient_value(bytes@, start as int) == Some(e as int) && start < e
                <= bytes@.len(),
            None => lenient_value(bytes@, start as int) is None,
        },
    decreases bytes@.len() - start, 1int,
{
    let k = skip_whitespace(bytes, start);
    if k >= bytes.len() {
        return None;
    }
    let b = bytes[k];
    proof {
        reveal_strlit("null");
        reveal_strlit("true");
        reveal_strlit("false");
        lemma_json_string_bounds(bytes@, k as int);
        lemma_number_run_end(bytes@, k as int);
    }
    if b == QUOTE {
        match parse_string(bytes, k) {
            Some((end, _)) => Some(end),
            None => None,
        }
    } else if b == OPEN_BRACE {
        skip_lenient_object(bytes, k)
    } else if b == OPEN_BRACKET {
        skip_lenient_array(bytes, k)
    } else if b == LOWER_T {
        if literal_is(bytes, k, "true") {
            Some(k + 4)
        } else {
            None
        }
    } else if b == LOWER_F {
        if literal_is(bytes, k, "false") {
            Some(k + 5)
        } else {
            None
        }
    } else if b == LOWER_N {
        if literal_is(bytes, k, "null") {
            Some(k + 4)
        } else {
            None
        }
    } else if b == MINUS || (DIGIT_ZERO <= b && b <= DIGIT_NINE) {
        let end = number_end(bytes, k);
        if end > k {
            Some(end)
        } else {
            None
        }
    } else {
        None
    }
}

/// Step over the object whose `{` is at `start`, returning its end.
pub fn skip_lenient_object(bytes: &[u8], start: usize) -> (end: Option<usize>)
    requires
        start <= bytes@.len(),
    ensures
        match end {
            Some(e) => lenient_object(bytes@, start as int) == Some(e as int) && start < e
                <= bytes@.len(),
            None => lenient_object(bytes@, start as int) is None,
        },
    decreases bytes@.len() - start, 0int,
{
    if !byte_is(bytes, start, OPEN_BRACE) {
        return None;
    }
    let len = bytes.len();
    let k1 = skip_whitespace(bytes, start + 1);
    if byte_is(bytes, k1, CLOSE_BRACE) {
        return Some(k1 + 1);
    }
    let mut j = k1;
    loop
        invariant
            len == bytes@.len(),
            start < j <= bytes@.len(),
            lenient_object(bytes@, start as int) == lenient_object_members(bytes@, j as int),
        decreases bytes@.len() - j,
    {
        let k0 = skip_whitespace(bytes, j);
        proof {
            lemma_json_string_bounds(bytes@, k0 as int);
        }
        let k1 = match parse_string(bytes, k0) {
            Some((k1, _)) => k1,
            None => return None,
        };
        let k2 = skip_whitespace(bytes, k1);
        if !byte_is(bytes, k2, COLON) {
            return None;
        }
        let k4 = match skip_lenient_value(bytes, k2 + 1) {
            Some(k4) => k4,
            None => return None,
        };
        let k5 = skip_whitespace(bytes, k4);
        if byte_is(bytes, k5, CLOSE_BRACE) {
            return Some(k5 + 1);
        }
        if !byte_is(bytes, k5, COMMA) {
            return None;
        }
        j = k5 + 1;
    }
}

/// Step over the array whose `[` is at `start`, returning its end.
pub fn skip_lenient_array(bytes: &[u8], start: usize) -> (end: Option<usize>)
    requires
        start <= bytes@.len(),
    ensures
        match end {
            Some(e) => lenient_array(bytes@, start as int) == Some(e as int) && start < e
                <= bytes@.len(),
            None => lenient_array(bytes@, start as int) is None,
        },
    decreases bytes@.len() - start, 0int,
{
    if !byte_is(bytes, start, OPEN_BRACKET) {
        return None;
    }
    let len = bytes.len();
    let k1 = skip_whitespace(bytes, start + 1);
    if byte_is(bytes, k1, CLOSE_BRACKET) {
        return Some(k1 + 1);
    }
    let mut j = k1;
    loop
        invariant
            len == bytes@.len(),
            start < j <= bytes@.len(),
            lenient_array(bytes@, start as int) == lenient_array_items(bytes@, j as int),
        decreases bytes@.len() - j,
    {
        let k4 = match skip_lenient_value(bytes, j) {
            Some(k4) => k4,
            None => return None,
        };
        let k5 = skip_whitespace(bytes, k4);
        if byte_is(bytes, k5, CLOSE_BRACKET) {
            return Some(k5 + 1);
        }
        if !byte_is(bytes, k5, COMMA) {
            return None;
        }
        j = k5 + 1;
    }
}

/// A read position inside one UTF-8 document.
pub struct ProjectionCursor<'a> {
    input: &'a str,
    index: usize,
}

impl<'a> ProjectionCursor<'a> {
    /// The read position never passes the end of the document.
    #[verifier::type_invariant]
    pub open spec fn within(&self) -> bool {
        self.position() <= self.bytes().len()
    }

    /// The UTF-8 bytes of the document.
    pub closed spec fn bytes(&self) -> Seq<u8> {
        encode_utf8(self.input@)
    }

    /// The current read position.
    pub closed spec fn position(&self) -> int {
        self.index as int
    }

    /// A cursor at the start of `input`.
    pub fn new(input: &'a str) -> (cursor: Self)
        ensures
            cursor.bytes() == encode_utf8(input@),
            cursor.position() == 0,
    {
        ProjectionCursor { input, index: 0 }
    }

    /// The read position, which never passes the end of the document.
    pub fn index(&self) -> (index: usize)
        ensures
            index == self.position(),
            index <= self.bytes().len(),
    {
        proof {
            use_type_invariant(self);
        }
        self.index
    }

    /// The UTF-8 bytes of the document.
    pub fn input_bytes(&self) -> (bytes: &'a [u8])
        ensures
            bytes@ == self.bytes(),
    {
        self.input.as_bytes()
    }

    fn set_index(&mut self, index: usize)
        requires
            index <= old(self).bytes().len(),
        ensures
            final(self).bytes() == old(self).bytes(),
            final(self).position() == index,
    {
        self.index = index;
    }

    /// The byte at the read position, if any.
    pub fn current_byte(&self) -> (byte: Option<u8>)
        ensures
            byte == byte_at(self.bytes(), self.position()),
    {
        let bytes = self.input.as_bytes();
        if self.index < bytes.len() {
            Some(bytes[self.index])
        } else {
            None
        }
    }

    /// Consume `expected` when it is the byte at the read position.
    pub fn consume_byte(&mut self, expected: u8) -> (consumed: bool)
        ensures
            final(self).bytes() == old(self).bytes(),
            final(self).position() >= old(self).position(),
            consumed == (byte_at(old(self).bytes(), old(self).position()) == Some(expected)),
            final(self).position() == if consumed {
                old(self).position() + 1
            } else {
                old(self).position()
            },
    {
        let bytes = self.input.as_bytes();
        if self.index < bytes.len() && bytes[self.index] == expected {
            let next = self.index + 1;
            self.set_index(next);
            true
        } else {
            false
        }
    }

    /// Advance past JSON whitespace.
    pub fn skip_whitespace(&mut self)
        ensures
            final(self).bytes() == old(self).bytes(),
            final(self).position() >= old(self).position(),
            final(self).position() == ws_end(old(self).bytes(), old(self).position()),
    {
        proof {
            use_type_invariant(&*self);
            lemma_ws_end(self.bytes(), self.position());
        }
        let next = skip_whitespace(self.input.as_bytes(), self.index);
        self.set_index(next);
    }

    /// Consume `literal` when it occurs at the read position.
    pub fn consume_literal(&mut self, literal: &[u8]) -> (consumed: bool)
        ensures
            final(self).bytes() == old(self).bytes(),
            final(self).position() >= old(self).position(),
            consumed == has_literal_at(old(self).bytes(), old(self).position(), literal@),
            final(self).position() == if consumed {
                old(self).position() + literal@.len()
            } else {
                old(self).position()
            },
    {
        proof {
            use_type_invariant(&*self);
        }
        let bytes = self.input.as_bytes();
        let _len = bytes.len();
        if literal_at(bytes, self.index, literal) {
            let next = self.index + literal.len();
            self.set_index(next);
            true
        } else {
            false
        }
    }

    /// Read one member name and its `:`, leaving the position at the member value.
    pub fn parse_member_name(&mut self) -> (key: Option<Vec<u8>>)
        ensures
            final(self).bytes() == old(self).bytes(),
            final(self).position() >= old(self).position(),
            match member_head(old(self).bytes(), old(self).position()) {
                Some((value_start, name)) => key matches Some(k) && k@ == name
                    && final(self).position() == value_start && value_start > old(self).position(),
                None => key is None,
            },
    {
        let ghost s = self.bytes();
        let ghost j = self.position();
        proof {
            lemma_ws_end(s, j);
        }
        self.skip_whitespace();
        proof {
            lemma_json_string_bounds(s, self.position());
        }
        let key = match self.parse_string_bytes() {
            Some(key) => key,
            None => return None,
        };
        proof {
            lemma_ws_end(s, self.position());
        }
        self.skip_whitespace();
        if !self.consume_byte(COLON) {
            return None;
        }
        proof {
            lemma_ws_end(s, self.position());
        }
        self.skip_whitespace();
        Some(key)
    }

    /// Read the separator after a member value.
    pub fn member_separator(&mut self) -> (separator: MemberSeparator)
        ensures
            final(self).bytes() == old(self).bytes(),
            final(self).position() >= old(self).position(),
            (separator, final(self).position()) == member_separator(
                old(self).bytes(),
                old(self).position(),
            ),
    {
        proof {
            use_type_invariant(&*self);
            lemma_ws_end(self.bytes(), self.position());
        }
        self.skip_whitespace();
        let separator = if self.consume_byte(CLOSE_BRACE) {
            MemberSeparator::Close
        } else if self.consume_byte(COMMA) {
            MemberSeparator::Comma
        } else {
            MemberSeparator::Other
        };
        separator
    }

    /// Step over one value (leading whitespace allowed); the position is kept when there is none.
    pub fn skip_value(&mut self) -> (skipped: bool)
        ensures
            final(self).bytes() == old(self).bytes(),
            final(self).position() >= old(self).position(),
            skipped == lenient_value(old(self).bytes(), old(self).position()) is Some,
            final(self).position() == match lenient_value(old(self).bytes(), old(self).position()) {
                Some(end) => end,
                None => old(self).position(),
            },
    {
        proof {
            use_type_invariant(&*self);
        }
        match skip_lenient_value(self.input.as_bytes(), self.index) {
            Some(end) => {
                self.set_index(end);
                true
            },
            None => false,
        }
    }

    /// Step over the object whose `{` is at the read position.
    pub fn skip_object(&mut self) -> (skipped: bool)
        ensures
            final(self).bytes() == old(self).bytes(),
            final(self).position() >= old(self).position(),
            skipped == lenient_object(old(self).bytes(), old(self).position()) is Some,
            final(self).position() == match lenient_object(old(self).bytes(), old(self).position()) {
                Some(end) => end,
                None => old(self).position(),
            },
    {
        proof {
            use_type_invariant(&*self);
        }
        match skip_lenient_object(self.input.as_bytes(), self.index) {
            Some(end) => {
                self.set_index(end);
                true
            },
            None => false,
        }
    }

    /// Step over the array whose `[` is at the read position.
    pub fn skip_array(&mut self) -> (skipped: bool)
        ensures
            final(self).bytes() == old(self).bytes(),
            final(self).position() >= old(self).position(),
            skipped == lenient_array(old(self).bytes(), old(self).position()) is Some,
            final(self).position() == match lenient_array(old(self).bytes(), old(self).position()) {
                Some(end) => end,
                None => old(self).position(),
            },
    {
        proof {
            use_type_invariant(&*self);
        }
        match skip_lenient_array(self.input.as_bytes(), self.index) {
            Some(end) => {
                self.set_index(end);
                true
            },
            None => false,
        }
    }

    /// Step over a non-empty run of number bytes at the read position.
    pub fn skip_number(&mut self) -> (skipped: bool)
        ensures
            final(self).bytes() == old(self).bytes(),
            final(self).position() >= old(self).position(),
            skipped == lenient_number(old(self).bytes(), old(self).position()) is Some,
            final(self).position() == number_run_end(old(self).bytes(), old(self).position()),
    {
        proof {
            use_type_invariant(&*self);
        }
        let end = number_end(self.input.as_bytes(), self.index);
        let skipped = end > self.index;
        self.set_index(end);
        skipped
    }

    /// Decode the JSON string whose opening quote is at the read position, as bytes.
    pub fn parse_string_bytes(&mut self) -> (decoded: Option<Vec<u8>>)
        ensures
            final(self).bytes() == old(self).bytes(),
            final(self).position() >= old(self).position(),
            match json_string(old(self).bytes(), old(self).position()) {
                Some((end, text)) => decoded matches Some(d) && d@ == text && final(self).position()
                    == end,
                None => decoded is None && final(self).position() == old(self).position(),
            },
    {
        proof {
            use_type_invariant(&*self);
            lemma_json_string_bounds(self.bytes(), self.position());
        }
        match parse_string(self.input.as_bytes(), self.index) {
            Some((end, decoded)) => {
                self.set_index(end);
                Some(decoded)
            },
            None => None,
        }
    }

    /// Decode the JSON string whose opening quote is at the read position, as text.
    pub fn parse_string(&mut self) -> (text: Option<String>)
        ensures
            final(self).bytes() == old(self).bytes(),
            final(self).position() >= old(self).position(),
            match json_text_at(old(self).bytes(), old(self).position()) {
                Some((end, decoded)) => text matches Some(t) && t@ == decode_utf8(decoded)
                    && final(self).position() == end,
                None => text is None,
            },
    {
        match self.parse_string_bytes() {
            Some(decoded) => string_from_utf8(decoded),
            None => None,
        }
    }

    /// Decode the escape whose selector byte is at the read position, appending its text.
    pub fn parse_escape(&mut self, output: &mut String) -> (decoded: bool)
        ensures
            final(self).bytes() == old(self).bytes(),
            final(self).position() >= old(self).position(),
            decoded == (escape_sequence(old(self).bytes(), old(self).position()) matches Some(
                (_, d),
            ) && valid_utf8(d)),
            decoded ==> (escape_sequence(old(self).bytes(), old(self).position()) matches Some(
                (end, d),
            ) && final(self).position() == end && final(output)@ == old(output)@ + decode_utf8(d)),
            !decoded ==> final(output)@ == old(output)@,
    {
        proof {
            use_type_invariant(&*self);
            lemma_escape_bounds(self.bytes(), self.position());
        }
        let mut bytes: Vec<u8> = Vec::new();
        match parse_escape(self.input.as_bytes(), self.index, &mut bytes) {
            Some(end) => {
                assert(bytes@ =~= Seq::<u8>::empty() + bytes@);
                match str_from_utf8(bytes.as_slice()) {
                    Some(text) => {
                        output.append(text);
                        self.set_index(end);
                        true
                    },
                    None => false,
                }
            },
            None => false,
        }
    }

    /// Decode the `\u` escape whose hexadecimal digits are at the read position, appending its
    /// character.
    pub fn parse_unicode_escape(&mut self, output: &mut String) -> (decoded: bool)
        ensures
            final(self).bytes() == old(self).bytes(),
            final(self).position() >= old(self).position(),
            decoded == unicode_escape(old(self).bytes(), old(self).position()) is Some,
            decoded ==> (unicode_escape(old(self).bytes(), old(self).position()) matches Some(
                (end, scalar),
            ) && final(self).position() == end && encode_utf8(final(output)@) == encode_utf8(
                old(output)@,
            ) + encode_scalar(scalar)),
            !decoded ==> final(output)@ == old(output)@,
    {
        proof {
            use_type_invariant(&*self);
            lemma_unicode_escape_bounds(self.bytes(), self.position());
        }
        match parse_unicode_escape(self.input.as_bytes(), self.index) {
            Some((end, scalar)) => {
                let mut bytes: Vec<u8> = Vec::new();
                encode_scalar_bytes(scalar, &mut bytes);
                proof {
                    lemma_encode_scalar_utf8(scalar);
                    assert(bytes@ =~= encode_scalar(scalar));
                }
                match str_from_utf8(bytes.as_slice()) {
                    Some(text) => {
                        let ghost before = output@;
                        output.append(text);
                        proof {
                            vstd::utf8::decode_utf8_encode_utf8(encode_scalar(scalar));
                            lemma_encode_utf8_concat(before, text@);
                        }
                        self.set_index(end);
                        true
                    },
                    None => {
                        proof {
                            assert(false);
                        }
                        false
                    },
                }
            },
            None => false,
        }
    }

    /// Read four hexadecimal digits at the read position.
    pub fn parse_hex_u16(&mut self) -> (value: Option<u16>)
        ensures
            final(self).bytes() == old(self).bytes(),
            final(self).position() >= old(self).position(),
            value == hex_quad(old(self).bytes(), old(self).position()),
            final(self).position() == if value is Some {
                old(self).position() + 4
            } else {
                old(self).position()
            },
    {
        proof {
            use_type_invariant(&*self);
            lemma_hex_quad_bounds(self.bytes(), self.position());
        }
        let _len = self.input.as_bytes().len();
        let value = parse_hex_u16(self.input.as_bytes(), self.index);
        if value.is_some() {
            let next = self.index + 4;
            self.set_index(next);
        }
        value
    }
}

/// The UTF-8 encoding of a Unicode scalar value is well-formed.
pub proof fn lemma_encode_scalar_utf8(scalar: u32)
    requires
        is_scalar(scalar),
    ensures
        valid_utf8(encode_scalar(scalar)),
{
    let c = scalar as char;
    assert(c as u32 == scalar) by {
        vstd::utf8::char_is_scalar(c);
    }
    let chars = seq![c];
    assert(encode_utf8(chars) =~= encode_scalar(scalar)) by {
        assert(chars.drop_first() =~= Seq::<char>::empty());
        assert(encode_utf8(chars.drop_first()) == Seq::<u8>::empty());
        assert(chars[0] as u32 == scalar);
    }
    vstd::utf8::encode_utf8_valid_utf8(chars);
}

/// Encoding distributes over concatenation.
pub proof fn lemma_encode_utf8_concat(a: Seq<char>, b: Seq<char>)
    ensures
        encode_utf8(a + b) == encode_utf8(a) + encode_utf8(b),
    decreases a.len(),
{
    if a.len() == 0 {
        assert(a + b =~= b);
    } else {
        assert((a + b).drop_first() =~= a.drop_first() + b);
        lemma_encode_utf8_concat(a.drop_first(), b);
    }
}

} // verus!
