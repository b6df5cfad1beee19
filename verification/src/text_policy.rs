//! Character policy for protocol identifiers and caller-supplied text.

use vstd::prelude::*;
use vstd::utf8::*;

verus! {

/// Largest text, in UTF-8 bytes, typed into or observed in one text control.
pub const MAX_WEBDRIVER_BIDI_TYPE_TEXT_BYTES: usize = 4_096;

/// Unicode general category `Cc`: C0 controls, DEL and C1 controls.
pub open spec fn is_control_char(c: char) -> bool {
    c <= '\u{1f}' || ('\u{7f}' <= c && c <= '\u{9f}')
}

/// The Unicode `White_Space` property.
pub open spec fn is_white_space_char(c: char) -> bool {
    ||| ('\u{09}' <= c && c <= '\u{0d}')
    ||| c == ' '
    ||| c == '\u{85}'
    ||| c == '\u{a0}'
    ||| c == '\u{1680}'
    ||| ('\u{2000}' <= c && c <= '\u{200a}')
    ||| c == '\u{2028}'
    ||| c == '\u{2029}'
    ||| c == '\u{202f}'
    ||| c == '\u{205f}'
    ||| c == '\u{3000}'
}

/// Invisible format characters that can reorder or hide text when it is shown to an operator:
/// bidirectional embeddings, overrides, isolates and marks, zero-width characters and the byte
/// order mark.
pub open spec fn is_format_injection_char(c: char) -> bool {
    ||| c == '\u{61c}'
    ||| ('\u{200b}' <= c && c <= '\u{200f}')
    ||| ('\u{202a}' <= c && c <= '\u{202e}')
    ||| ('\u{2060}' <= c && c <= '\u{2064}')
    ||| ('\u{2066}' <= c && c <= '\u{2069}')
    ||| c == '\u{feff}'
}

/// Whether `c` is a Unicode control character (general category `Cc`).
pub fn is_control(c: char) -> (control: bool)
    ensures
        control == is_control_char(c),
{
    c <= '\u{1f}' || ('\u{7f}' <= c && c <= '\u{9f}')
}

/// Whether `c` has the Unicode `White_Space` property.
pub fn is_white_space(c: char) -> (white_space: bool)
    ensures
        white_space == is_white_space_char(c),
{
    ('\u{09}' <= c && c <= '\u{0d}') || c == ' ' || c == '\u{85}' || c == '\u{a0}' || c
        == '\u{1680}' || ('\u{2000}' <= c && c <= '\u{200a}') || c == '\u{2028}' || c == '\u{2029}'
        || c == '\u{202f}' || c == '\u{205f}' || c == '\u{3000}'
}

/// Whether `c` is one of the invisible format characters refused in protocol text.
pub fn is_format_injection(c: char) -> (injection: bool)
    ensures
        injection == is_format_injection_char(c),
{
    c == '\u{61c}' || ('\u{200b}' <= c && c <= '\u{200f}') || ('\u{202a}' <= c && c <= '\u{202e}')
        || ('\u{2060}' <= c && c <= '\u{2064}') || ('\u{2066}' <= c && c <= '\u{2069}') || c
        == '\u{feff}'
}

/// Characters refused in an opaque protocol identifier.
pub open spec fn is_disallowed_identifier_char(c: char) -> bool {
    is_control_char(c) || is_white_space_char(c) || is_format_injection_char(c)
}

/// A protocol identifier: non-empty, at most `maximum_bytes` UTF-8 bytes, and free of controls,
/// white space and invisible format characters.
pub open spec fn protocol_identifier_valid(text: Seq<char>, maximum_bytes: nat) -> bool {
    &&& text.len() > 0
    &&& encode_utf8(text).len() <= maximum_bytes
    &&& forall|i: int| 0 <= i < text.len() ==> !is_disallowed_identifier_char(#[trigger] text[i])
}

/// Whether `value` is a valid protocol identifier of at most `maximum_bytes` UTF-8 bytes.
pub fn protocol_identifier_is_valid(value: &str, maximum_bytes: usize) -> (valid: bool)
    ensures
        valid == protocol_identifier_valid(value@, maximum_bytes as nat),
{
    if value.is_empty() || value.as_bytes().len() > maximum_bytes {
        return false;
    }
    proof {
        broadcast use vstd::string::axiom_spec_iter;
    }
    for c in it: value.chars()
        invariant
            it.seq() == value@,
            forall|j: int| 0 <= j < it.index() ==> !is_disallowed_identifier_char(#[trigger] it.seq()[j]),
    {
        if is_control(c) || is_white_space(c) || is_format_injection(c) {
            return false;
        }
    }
    assert(forall|j: int| 0 <= j < value@.len() ==> !is_disallowed_identifier_char(#[trigger] value@[j]));
    true
}

} // verus!
