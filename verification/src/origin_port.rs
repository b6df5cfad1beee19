//! The port a serialized web origin connects to: its explicit port, else its scheme's default.

use vstd::prelude::*;
use vstd::utf8::*;

use crate::json_text::{text_equal, CLOSE_BRACKET, COLON, OPEN_BRACKET};

verus! {

/// The index of the last `:` in `s`.
pub open spec fn last_colon(s: Seq<u8>) -> Option<int>
    decreases s.len(),
{
    if s.len() == 0 {
        None
    } else if s.last() == COLON {
        Some(s.len() - 1)
    } else {
        last_colon(s.drop_last())
    }
}

/// The index of the last `]:` in `s`.
pub open spec fn last_bracket_colon(s: Seq<u8>) -> Option<int>
    decreases s.len(),
{
    if s.len() < 2 {
        None
    } else if s[s.len() - 2] == CLOSE_BRACKET && s.last() == COLON {
        Some(s.len() - 2)
    } else {
        last_bracket_colon(s.drop_last())
    }
}

/// The explicit port text of an origin authority: after the last `]:` of a bracketed IPv6 host,
/// else after the last `:`.
pub open spec fn explicit_port(authority: Seq<u8>) -> Option<Seq<u8>> {
    if authority.len() > 0 && authority[0] == OPEN_BRACKET {
        match last_bracket_colon(authority) {
            Some(k) => Some(authority.subrange(k + 2, authority.len() as int)),
            None => None,
        }
    } else {
        match last_colon(authority) {
            Some(k) => Some(authority.subrange(k + 1, authority.len() as int)),
            None => None,
        }
    }
}

/// The value of a run of decimal digits; the empty run is zero.
pub open spec fn digits_value(digits: Seq<u8>) -> nat
    decreases digits.len(),
{
    if digits.len() == 0 {
        0
    } else {
        digits_value(digits.drop_last()) * 10 + (digits.last() - 48) as nat
    }
}

/// A run of ASCII decimal digits.
pub open spec fn all_digits(digits: Seq<u8>) -> bool {
    forall|i: int| 0 <= i < digits.len() ==> 48 <= #[trigger] digits[i] <= 57
}

/// The authority of the serialized origin `origin` (UTF-8 bytes) of scheme `scheme`: the bytes after
/// `scheme://`.
pub open spec fn origin_authority(scheme: Seq<char>, origin: Seq<u8>) -> Seq<u8> {
    origin.subrange(encode_utf8(scheme).len() + 3int, origin.len() as int)
}

/// The default port of a scheme: 443 for `https`, 80 otherwise.
pub open spec fn default_port(scheme: Seq<char>) -> nat {
    if scheme == "https"@ {
        443
    } else {
        80
    }
}

/// The port that the serialized origin `origin` of scheme `scheme` connects to.
pub open spec fn effective_port(scheme: Seq<char>, origin: Seq<u8>) -> nat {
    match explicit_port(origin_authority(scheme, origin)) {
        Some(port) => digits_value(port),
        None => default_port(scheme),
    }
}

/// A canonical serialized origin of scheme `scheme`: `scheme://authority`, whose explicit port, if
/// any, is decimal digits naming a 16-bit port.
pub open spec fn canonical_origin(scheme: Seq<char>, origin: Seq<u8>) -> bool {
    &&& origin.len() >= encode_utf8(scheme).len() + 3
    &&& origin.subrange(0, encode_utf8(scheme).len() as int) == encode_utf8(scheme)
    &&& origin.subrange(encode_utf8(scheme).len() as int, encode_utf8(scheme).len() + 3int) == seq![
        COLON,
        0x2fu8,
        0x2fu8,
    ]
    &&& explicit_port(origin_authority(scheme, origin)) matches Some(port) ==> (all_digits(port)
        && digits_value(port) <= u16::MAX)
}

proof fn lemma_last_colon_bound(s: Seq<u8>)
    ensures
        last_colon(s) matches Some(k) ==> 0 <= k < s.len() && s[k] == COLON,
    decreases s.len(),
{
    if s.len() > 0 && s.last() != COLON {
        lemma_last_colon_bound(s.drop_last());
    }
}

proof fn lemma_last_bracket_colon_bound(s: Seq<u8>)
    ensures
        last_bracket_colon(s) matches Some(k) ==> 0 <= k && k + 2 <= s.len(),
    decreases s.len(),
{
    if s.len() >= 2 && !(s[s.len() - 2] == CLOSE_BRACKET && s.last() == COLON) {
        lemma_last_bracket_colon_bound(s.drop_last());
    }
}

proof fn lemma_digits_value_prefix(digits: Seq<u8>, k: int)
    requires
        0 <= k <= digits.len(),
        all_digits(digits),
    ensures
        digits_value(digits.take(k)) <= digits_value(digits),
    decreases digits.len(),
{
    if k < digits.len() {
        assert(digits.drop_last().take(k) =~= digits.take(k));
        assert(all_digits(digits.drop_last()));
        lemma_digits_value_prefix(digits.drop_last(), k);
    } else {
        assert(digits.take(k) =~= digits);
    }
}

fn last_colon_index(s: &[u8]) -> (index: Option<usize>)
    ensures
        match last_colon(s@) {
            Some(k) => index == Some(k as usize),
            None => index is None,
        },
{
    let mut end: usize = s.len();
    assert(s@.take(end as int) =~= s@);
    while end > 0
        invariant
            end <= s@.len(),
            last_colon(s@) == last_colon(s@.take(end as int)),
        decreases end,
    {
        assert(s@.take(end as int).drop_last() =~= s@.take(end - 1));
        if s[end - 1] == COLON {
            return Some(end - 1);
        }
        end = end - 1;
    }
    None
}

fn last_bracket_colon_index(s: &[u8]) -> (index: Option<usize>)
    ensures
        match last_bracket_colon(s@) {
            Some(k) => index == Some(k as usize),
            None => index is None,
        },
{
    let mut end: usize = s.len();
    assert(s@.take(end as int) =~= s@);
    while end >= 2
        invariant
            end <= s@.len(),
            last_bracket_colon(s@) == last_bracket_colon(s@.take(end as int)),
        decreases end,
    {
        assert(s@.take(end as int).drop_last() =~= s@.take(end - 1));
        if s[end - 2] == CLOSE_BRACKET && s[end - 1] == COLON {
            return Some(end - 2);
        }
        end = end - 1;
    }
    None
}

/// The port that the canonical serialized origin `origin` of scheme `scheme` connects to: its
/// explicit port, else 443 for `https` and 80 for every other scheme.
pub fn effective_origin_port(scheme: &str, origin: &str) -> (port: u16)
    requires
        canonical_origin(scheme@, encode_utf8(origin@)),
    ensures
        port == effective_port(scheme@, encode_utf8(origin@)),
{
    let bytes = origin.as_bytes();
    let total = bytes.len();
    let scheme_len = scheme.as_bytes().len();
    assert(bytes@ == encode_utf8(origin@));
    let start = scheme_len + 3;
    let authority = &bytes[start..bytes.len()];
    assert(authority@ == origin_authority(scheme@, encode_utf8(origin@)));
    proof {
        lemma_last_colon_bound(authority@);
        lemma_last_bracket_colon_bound(authority@);
    }
    let port_start = if authority.len() > 0 && authority[0] == OPEN_BRACKET {
        match last_bracket_colon_index(authority) {
            Some(k) => Some(k + 2),
            None => None,
        }
    } else {
        match last_colon_index(authority) {
            Some(k) => Some(k + 1),
            None => None,
        }
    };
    match port_start {
        None => {
            if text_equal(scheme, "https") {
                443
            } else {
                80
            }
        },
        Some(first) => {
            let ghost digits = authority@.subrange(first as int, authority@.len() as int);
            assert(explicit_port(authority@) == Some(digits));
            let mut value: u16 = 0;
            let mut k: usize = first;
            while k < authority.len()
                invariant
                    first <= k <= authority@.len(),
                    digits == authority@.subrange(first as int, authority@.len() as int),
                    all_digits(digits),
                    digits_value(digits) <= u16::MAX,
                    value == digits_value(digits.take(k - first)),
                decreases authority@.len() - k,
            {
                proof {
                    lemma_digits_value_prefix(digits, k - first + 1);
                    assert(digits.take(k - first + 1).drop_last() =~= digits.take(k - first));
                    assert(digits[k - first] == authority@[k as int]);
                }
                value = value * 10 + (authority[k] - 48) as u16;
                k = k + 1;
            }
            proof {
                assert(digits.take(k - first) =~= digits);
            }
            value
        },
    }
}

} // verus!
