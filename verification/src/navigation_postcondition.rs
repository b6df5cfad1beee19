//! Projection of the W3C `browsingContext.NavigationInfo` fields of one committed-navigation event.

use vstd::prelude::*;
use vstd::string::StringExecFns;
use vstd::utf8::*;

use crate::json_envelope::{decimal_js_uint, decimal_value, lit, MAX_WEBDRIVER_BIDI_JS_UINT};
use crate::json_text::{
    ascii_literal, byte_at, bytes_equal, has_literal_at, is_digit, ws_end, CLOSE_BRACE,
    DIGIT_NINE, DIGIT_ZERO, OPEN_BRACE,
};
use crate::projection_cursor::{
    is_number_byte, json_text_at, lenient_value, member_head, member_separator, number_run_end,
    MemberSeparator,
    ProjectionCursor,
};
use crate::text_message::{str_from_utf8, string_from_utf8};
use crate::text_policy::{protocol_identifier_is_valid, protocol_identifier_valid};

verus! {

/// WebDriver BiDi event method that reports a committed browsing-context navigation.
pub const WEBDRIVER_BIDI_NAVIGATION_COMMITTED_METHOD: &'static str = "browsingContext.navigationCommitted";

/// Maximum UTF-8 bytes of one external browser identifier, such as a browsing-context id.
pub const MAX_EXTERNAL_BROWSER_IDENTIFIER_BYTES: usize = 1_024;

/// Maximum UTF-8 bytes retained for one opaque WebDriver BiDi navigation identifier.
pub const MAX_WEBDRIVER_BIDI_NAVIGATION_IDENTIFIER_BYTES: usize = 1_024;

/// Maximum UTF-8 bytes retained for one observed serialized navigation URL.
pub const MAX_WEBDRIVER_BIDI_NAVIGATION_URL_BYTES: usize = 16_384;

/// Fail-closed failures while projecting W3C `browsingContext.NavigationInfo` fields.
#[derive(Clone, Copy, Debug, PartialEq, Eq)]
pub enum WebDriverBiDiNavigationCommittedProjectionError {
    /// The projection cursor encountered an impossible structure after common JSON validation.
    InvalidStructure,
    /// A required `NavigationInfo` member was absent.
    MissingRequiredMember {
        /// Missing member name.
        member: &'static str,
    },
    /// A required `NavigationInfo` member appeared more than once.
    DuplicateRequiredMember {
        /// Duplicated member name.
        member: &'static str,
    },
    /// The external browsing-context identifier was malformed or exceeded its bound.
    InvalidContextIdentifier,
    /// The optional navigation identifier was malformed or exceeded its bound.
    InvalidNavigationIdentifier,
    /// The navigation timestamp was not a WebDriver BiDi JavaScript uint.
    InvalidTimestamp,
    /// The serialized URL exceeded the observation bound.
    UrlTooLarge {
        /// Maximum admitted UTF-8 URL bytes.
        maximum_bytes: usize,
    },
}

impl WebDriverBiDiNavigationCommittedProjectionError {
    /// Stable operator-facing description.
    pub open spec fn description(&self) -> Seq<char> {
        match self {
            WebDriverBiDiNavigationCommittedProjectionError::InvalidStructure => "navigation-committed projection encountered invalid JSON structure"@,
            WebDriverBiDiNavigationCommittedProjectionError::MissingRequiredMember { member } => "navigation-committed params are missing "@ + member@,
            WebDriverBiDiNavigationCommittedProjectionError::DuplicateRequiredMember { member } => "navigation-committed params contain duplicate "@ + member@,
            WebDriverBiDiNavigationCommittedProjectionError::InvalidContextIdentifier => "navigation-committed context identifier is invalid"@,
            WebDriverBiDiNavigationCommittedProjectionError::InvalidNavigationIdentifier => "navigation-committed navigation identifier is invalid"@,
            WebDriverBiDiNavigationCommittedProjectionError::InvalidTimestamp => "navigation-committed timestamp is not a JavaScript uint"@,
            WebDriverBiDiNavigationCommittedProjectionError::UrlTooLarge { maximum_bytes } => "navigation-committed URL exceeds the "@
                + decode_utf8(crate::json_text::decimal_digits(*maximum_bytes as nat)) + "-byte observation limit"@,
        }
    }

    /// Stable operator-facing description.
    pub fn to_string(&self) -> (text: String)
        ensures
            text@ == self.description(),
    {
        match self {
            WebDriverBiDiNavigationCommittedProjectionError::InvalidStructure => "navigation-committed projection encountered invalid JSON structure".to_owned(),
            WebDriverBiDiNavigationCommittedProjectionError::MissingRequiredMember { member } => {
                let mut text = "navigation-committed params are missing ".to_owned();
                text.append(member);
                text
            },
            WebDriverBiDiNavigationCommittedProjectionError::DuplicateRequiredMember { member } => {
                let mut text = "navigation-committed params contain duplicate ".to_owned();
                text.append(member);
                text
            },
            WebDriverBiDiNavigationCommittedProjectionError::InvalidContextIdentifier => "navigation-committed context identifier is invalid".to_owned(),
            WebDriverBiDiNavigationCommittedProjectionError::InvalidNavigationIdentifier => "navigation-committed navigation identifier is invalid".to_owned(),
            WebDriverBiDiNavigationCommittedProjectionError::InvalidTimestamp => "navigation-committed timestamp is not a JavaScript uint".to_owned(),
            WebDriverBiDiNavigationCommittedProjectionError::UrlTooLarge { maximum_bytes } => {
                let mut text = "navigation-committed URL exceeds the ".to_owned();
                let digits = crate::json_text::decimal_text(*maximum_bytes as u64);
                text.append(digits.as_str());
                text.append("-byte observation limit");
                text
            },
        }
    }

    /// No projection error wraps another error.
    pub fn source(&self) -> (source: Option<&WebDriverBiDiNavigationCommittedProjectionError>)
        ensures
            source is None,
    {
        None
    }
}

/// The refusal for an impossible structure.
pub open spec fn invalid_structure() -> WebDriverBiDiNavigationCommittedProjectionError {
    WebDriverBiDiNavigationCommittedProjectionError::InvalidStructure
}

/// The projected `NavigationInfo` fields, as UTF-8 bytes.
pub struct SpecNavigationInfo {
    pub context: Seq<u8>,
    pub navigation: Option<Seq<u8>>,
    pub timestamp: u64,
    pub url: Seq<u8>,
}

/// The `NavigationInfo` members seen so far.
pub struct SpecParamsSeen {
    pub context: Option<Seq<u8>>,
    pub navigation_seen: bool,
    pub navigation: Option<Seq<u8>>,
    pub timestamp: Option<u64>,
    pub url: Option<Seq<u8>>,
}

/// No `NavigationInfo` member seen yet.
pub open spec fn nothing_seen() -> SpecParamsSeen {
    SpecParamsSeen { context: None, navigation_seen: false, navigation: None, timestamp: None, url: None }
}

/// Whether every byte of `s[start..end]` is an ASCII digit.
pub open spec fn all_digits(s: Seq<u8>, start: int, end: int) -> bool {
    forall|m: int| start <= m < end ==> is_digit(#[trigger] s[m])
}

/// The `timestamp` value at `k`: a run of number bytes that is a plain decimal `js-uint`.
pub open spec fn js_uint_value(s: Seq<u8>, k: int) -> Result<(int, u64), WebDriverBiDiNavigationCommittedProjectionError> {
    let e = number_run_end(s, k);
    if e == k {
        match lenient_value(s, k) {
            None => Err(invalid_structure()),
            Some(_) => Err(WebDriverBiDiNavigationCommittedProjectionError::InvalidTimestamp),
        }
    } else if !all_digits(s, k, e) || decimal_value(s, k, e) > MAX_WEBDRIVER_BIDI_JS_UINT {
        Err(WebDriverBiDiNavigationCommittedProjectionError::InvalidTimestamp)
    } else {
        Ok((e, decimal_value(s, k, e) as u64))
    }
}

/// A decoded identifier text at `k` that satisfies the identifier policy with bound `maximum`.
pub open spec fn identifier_at(s: Seq<u8>, k: int, maximum: nat) -> Option<(int, Seq<u8>)> {
    match json_text_at(s, k) {
        Some((end, id)) => if protocol_identifier_valid(decode_utf8(id), maximum) {
            Some((end, id))
        } else {
            None
        },
        None => None,
    }
}

/// One `params` member whose value starts at `k3`.
pub open spec fn params_member(s: Seq<u8>, k3: int, key: Seq<u8>, seen: SpecParamsSeen) -> Result<
    (int, SpecParamsSeen),
    WebDriverBiDiNavigationCommittedProjectionError,
> {
    if key == lit("context") {
        if seen.context is Some {
            Err(WebDriverBiDiNavigationCommittedProjectionError::DuplicateRequiredMember { member: "context" })
        } else {
            match identifier_at(s, k3, MAX_EXTERNAL_BROWSER_IDENTIFIER_BYTES as nat) {
                None => Err(WebDriverBiDiNavigationCommittedProjectionError::InvalidContextIdentifier),
                Some((k4, c)) => Ok((k4, SpecParamsSeen { context: Some(c), ..seen })),
            }
        }
    } else if key == lit("navigation") {
        if seen.navigation_seen {
            Err(WebDriverBiDiNavigationCommittedProjectionError::DuplicateRequiredMember { member: "navigation" })
        } else if has_literal_at(s, k3, lit("null")) {
            Ok((k3 + 4, SpecParamsSeen { navigation_seen: true, navigation: None, ..seen }))
        } else {
            match identifier_at(s, k3, MAX_WEBDRIVER_BIDI_NAVIGATION_IDENTIFIER_BYTES as nat) {
                None => Err(WebDriverBiDiNavigationCommittedProjectionError::InvalidNavigationIdentifier),
                Some((k4, n)) => Ok((k4, SpecParamsSeen { navigation_seen: true, navigation: Some(n), ..seen })),
            }
        }
    } else if key == lit("timestamp") {
        if seen.timestamp is Some {
            Err(WebDriverBiDiNavigationCommittedProjectionError::DuplicateRequiredMember { member: "timestamp" })
        } else {
            match js_uint_value(s, k3) {
                Err(e) => Err(e),
                Ok((k4, t)) => Ok((k4, SpecParamsSeen { timestamp: Some(t), ..seen })),
            }
        }
    } else if key == lit("url") {
        if seen.url is Some {
            Err(WebDriverBiDiNavigationCommittedProjectionError::DuplicateRequiredMember { member: "url" })
        } else {
            match json_text_at(s, k3) {
                None => Err(invalid_structure()),
                Some((k4, u)) => if u.len() > MAX_WEBDRIVER_BIDI_NAVIGATION_URL_BYTES {
                    Err(WebDriverBiDiNavigationCommittedProjectionError::UrlTooLarge {
                        maximum_bytes: MAX_WEBDRIVER_BIDI_NAVIGATION_URL_BYTES,
                    })
                } else {
                    Ok((k4, SpecParamsSeen { url: Some(u), ..seen }))
                },
            }
        }
    } else {
        match lenient_value(s, k3) {
            None => Err(invalid_structure()),
            Some(k4) => Ok((k4, seen)),
        }
    }
}

/// The complete `NavigationInfo` once the `params` object has ended, or the first missing member.
pub open spec fn finish_params(seen: SpecParamsSeen) -> Result<SpecNavigationInfo, WebDriverBiDiNavigationCommittedProjectionError> {
    match seen.context {
        None => Err(WebDriverBiDiNavigationCommittedProjectionError::MissingRequiredMember { member: "context" }),
        Some(context) => if !seen.navigation_seen {
            Err(WebDriverBiDiNavigationCommittedProjectionError::MissingRequiredMember { member: "navigation" })
        } else {
            match seen.timestamp {
                None => Err(WebDriverBiDiNavigationCommittedProjectionError::MissingRequiredMember { member: "timestamp" }),
                Some(timestamp) => match seen.url {
                    None => Err(WebDriverBiDiNavigationCommittedProjectionError::MissingRequiredMember { member: "url" }),
                    Some(url) => Ok(SpecNavigationInfo { context, navigation: seen.navigation, timestamp, url }),
                },
            }
        },
    }
}

/// The `params` members from `j` on: the end of the object and its fields, or the first refusal.
pub open spec fn params_members(s: Seq<u8>, j: int, seen: SpecParamsSeen) -> Result<
    (int, SpecNavigationInfo),
    WebDriverBiDiNavigationCommittedProjectionError,
>
    decreases s.len() - j,
{
    match member_head(s, j) {
        None => Err(invalid_structure()),
        Some((k3, key)) => match params_member(s, k3, key, seen) {
            Err(e) => Err(e),
            Ok((k4, seen2)) => match member_separator(s, k4) {
                (MemberSeparator::Close, next) => match finish_params(seen2) {
                    Err(e) => Err(e),
                    Ok(info) => Ok((next, info)),
                },
                (MemberSeparator::Comma, next) => if next > j {
                    params_members(s, next, seen2)
                } else {
                    Err(invalid_structure())
                },
                (MemberSeparator::Other, _) => Err(invalid_structure()),
            },
        },
    }
}

/// The `params` object whose `{` should be at `k`.
pub open spec fn params_object(s: Seq<u8>, k: int) -> Result<
    (int, SpecNavigationInfo),
    WebDriverBiDiNavigationCommittedProjectionError,
> {
    if byte_at(s, k) != Some(OPEN_BRACE) {
        Err(invalid_structure())
    } else {
        let k1 = ws_end(s, k + 1);
        if byte_at(s, k1) == Some(CLOSE_BRACE) {
            Err(WebDriverBiDiNavigationCommittedProjectionError::MissingRequiredMember { member: "context" })
        } else {
            params_members(s, k1, nothing_seen())
        }
    }
}

/// The top-level members from `j` on, given the `params` projection already seen.
pub open spec fn navigation_top_members(s: Seq<u8>, j: int, params: Option<SpecNavigationInfo>) -> Result<
    SpecNavigationInfo,
    WebDriverBiDiNavigationCommittedProjectionError,
>
    decreases s.len() - j,
{
    match member_head(s, j) {
        None => Err(invalid_structure()),
        Some((k3, key)) => {
            let step: Result<(int, Option<SpecNavigationInfo>), WebDriverBiDiNavigationCommittedProjectionError> =
                if key == lit("params") {
                if params is Some {
                    Err(WebDriverBiDiNavigationCommittedProjectionError::DuplicateRequiredMember { member: "params" })
                } else {
                    match params_object(s, k3) {
                        Err(e) => Err(e),
                        Ok((k4, info)) => Ok((k4, Some(info))),
                    }
                }
            } else {
                match lenient_value(s, k3) {
                    None => Err(invalid_structure()),
                    Some(k4) => Ok((k4, params)),
                }
            };
            match step {
                Err(e) => Err(e),
                Ok((k4, p)) => match member_separator(s, k4) {
                    (MemberSeparator::Close, next) => if byte_at(s, ws_end(s, next)) is Some {
                        Err(invalid_structure())
                    } else {
                        match p {
                            None => Err(WebDriverBiDiNavigationCommittedProjectionError::MissingRequiredMember { member: "params" }),
                            Some(info) => Ok(info),
                        }
                    },
                    (MemberSeparator::Comma, next) => if next > j {
                        navigation_top_members(s, next, p)
                    } else {
                        Err(invalid_structure())
                    },
                    (MemberSeparator::Other, _) => Err(invalid_structure()),
                },
            }
        },
    }
}

/// Projection of `params` out of one committed-navigation event document.
pub open spec fn navigation_projection(s: Seq<u8>) -> Result<
    SpecNavigationInfo,
    WebDriverBiDiNavigationCommittedProjectionError,
> {
    let i0 = ws_end(s, 0);
    if byte_at(s, i0) != Some(OPEN_BRACE) {
        Err(invalid_structure())
    } else {
        let i1 = ws_end(s, i0 + 1);
        if byte_at(s, i1) == Some(CLOSE_BRACE) {
            Err(WebDriverBiDiNavigationCommittedProjectionError::MissingRequiredMember { member: "params" })
        } else {
            navigation_top_members(s, i1, None)
        }
    }
}

spec fn opt_bytes(v: Option<Vec<u8>>) -> Option<Seq<u8>> {
    match v {
        Some(b) => Some(b@),
        None => None,
    }
}

spec fn text_bytes(v: Option<Vec<u8>>) -> bool {
    v matches Some(b) ==> valid_utf8(b@)
}

/// The `NavigationInfo` members seen so far while reading `params`.
struct ParamsState {
    context: Option<Vec<u8>>,
    navigation_seen: bool,
    navigation: Option<Vec<u8>>,
    timestamp: Option<u64>,
    url: Option<Vec<u8>>,
}

impl View for ParamsState {
    type V = SpecParamsSeen;

    closed spec fn view(&self) -> SpecParamsSeen {
        SpecParamsSeen {
            context: opt_bytes(self.context),
            navigation_seen: self.navigation_seen,
            navigation: opt_bytes(self.navigation),
            timestamp: self.timestamp,
            url: opt_bytes(self.url),
        }
    }
}

impl ParamsState {
    closed spec fn is_text(&self) -> bool {
        text_bytes(self.context) && text_bytes(self.navigation) && text_bytes(self.url)
    }
}

/// The projected `NavigationInfo` fields, as UTF-8 bytes.
struct NavigationInfoBytes {
    context: Vec<u8>,
    navigation: Option<Vec<u8>>,
    timestamp: u64,
    url: Vec<u8>,
}

impl View for NavigationInfoBytes {
    type V = SpecNavigationInfo;

    closed spec fn view(&self) -> SpecNavigationInfo {
        SpecNavigationInfo {
            context: self.context@,
            navigation: opt_bytes(self.navigation),
            timestamp: self.timestamp,
            url: self.url@,
        }
    }
}

impl NavigationInfoBytes {
    closed spec fn is_text(&self) -> bool {
        valid_utf8(self.context@) && text_bytes(self.navigation) && valid_utf8(self.url@)
    }
}

fn is_key(key: &Vec<u8>, name: &'static str) -> (found: bool)
    requires
        vstd::string::is_ascii(name),
    ensures
        found == (key@ == lit(name)),
{
    bytes_equal(key.as_slice(), ascii_literal(name))
}

fn parse_identifier(cursor: &mut ProjectionCursor, maximum_bytes: usize) -> (id: Option<Vec<u8>>)
    ensures
        final(cursor).bytes() == old(cursor).bytes(),
        final(cursor).position() >= old(cursor).position(),
        match identifier_at(old(cursor).bytes(), old(cursor).position(), maximum_bytes as nat) {
            Some((end, text)) => id matches Some(b) && b@ == text && valid_utf8(text)
                && final(cursor).position() == end,
            None => id is None,
        },
{
    let parsed = match cursor.parse_string_bytes() {
        Some(parsed) => parsed,
        None => return None,
    };
    let valid = match str_from_utf8(parsed.as_slice()) {
        Some(text) => protocol_identifier_is_valid(text, maximum_bytes),
        None => return None,
    };
    if valid {
        Some(parsed)
    } else {
        None
    }
}

fn digits_only(bytes: &[u8], start: usize, end: usize) -> (digits: bool)
    requires
        start <= end <= bytes@.len(),
    ensures
        digits == all_digits(bytes@, start as int, end as int),
{
    let mut k = start;
    while k < end
        invariant
            start <= k <= end <= bytes@.len(),
            all_digits(bytes@, start as int, k as int),
        decreases end - k,
    {
        if !(DIGIT_ZERO <= bytes[k] && bytes[k] <= DIGIT_NINE) {
            return false;
        }
        k = k + 1;
    }
    true
}

fn parse_js_uint(cursor: &mut ProjectionCursor) -> (result: Result<u64, WebDriverBiDiNavigationCommittedProjectionError>)
    ensures
        final(cursor).bytes() == old(cursor).bytes(),
        final(cursor).position() >= old(cursor).position(),
        match js_uint_value(old(cursor).bytes(), old(cursor).position()) {
            Ok((end, v)) => result == Ok::<u64, WebDriverBiDiNavigationCommittedProjectionError>(v)
                && final(cursor).position() == end,
            Err(e) => result == Err::<u64, WebDriverBiDiNavigationCommittedProjectionError>(e),
        },
{
    let start = cursor.index();
    if !cursor.skip_number() {
        if !cursor.skip_value() {
            return Err(WebDriverBiDiNavigationCommittedProjectionError::InvalidStructure);
        }
        return Err(WebDriverBiDiNavigationCommittedProjectionError::InvalidTimestamp);
    }
    let end = cursor.index();
    let bytes = cursor.input_bytes();
    if !digits_only(bytes, start, end) {
        return Err(WebDriverBiDiNavigationCommittedProjectionError::InvalidTimestamp);
    }
    match decimal_js_uint(bytes, start, end) {
        Some(value) => Ok(value),
        None => Err(WebDriverBiDiNavigationCommittedProjectionError::InvalidTimestamp),
    }
}

fn parse_params_member(cursor: &mut ProjectionCursor, key: &Vec<u8>, seen: ParamsState) -> (result: Result<
    ParamsState,
    WebDriverBiDiNavigationCommittedProjectionError,
>)
    requires
        seen.is_text(),
    ensures
        final(cursor).bytes() == old(cursor).bytes(),
        final(cursor).position() >= old(cursor).position(),
        match params_member(old(cursor).bytes(), old(cursor).position(), key@, seen@) {
            Ok((k4, seen2)) => result matches Ok(r) && r@ == seen2 && r.is_text()
                && final(cursor).position() == k4,
            Err(e) => result == Err::<ParamsState, WebDriverBiDiNavigationCommittedProjectionError>(e),
        },
{
    proof {
        reveal_strlit("context");
        reveal_strlit("navigation");
        reveal_strlit("timestamp");
        reveal_strlit("url");
        reveal_strlit("null");
    }
    let mut seen = seen;
    if is_key(key, "context") {
        if seen.context.is_some() {
            return Err(WebDriverBiDiNavigationCommittedProjectionError::DuplicateRequiredMember { member: "context" });
        }
        match parse_identifier(cursor, MAX_EXTERNAL_BROWSER_IDENTIFIER_BYTES) {
            Some(c) => {
                seen.context = Some(c);
                Ok(seen)
            },
            None => Err(WebDriverBiDiNavigationCommittedProjectionError::InvalidContextIdentifier),
        }
    } else if is_key(key, "navigation") {
        if seen.navigation_seen {
            return Err(WebDriverBiDiNavigationCommittedProjectionError::DuplicateRequiredMember { member: "navigation" });
        }
        if cursor.consume_literal(ascii_literal("null")) {
            seen.navigation_seen = true;
            seen.navigation = None;
            return Ok(seen);
        }
        match parse_identifier(cursor, MAX_WEBDRIVER_BIDI_NAVIGATION_IDENTIFIER_BYTES) {
            Some(n) => {
                seen.navigation_seen = true;
                seen.navigation = Some(n);
                Ok(seen)
            },
            None => Err(WebDriverBiDiNavigationCommittedProjectionError::InvalidNavigationIdentifier),
        }
    } else if is_key(key, "timestamp") {
        if seen.timestamp.is_some() {
            return Err(WebDriverBiDiNavigationCommittedProjectionError::DuplicateRequiredMember { member: "timestamp" });
        }
        match parse_js_uint(cursor) {
            Ok(t) => {
                seen.timestamp = Some(t);
                Ok(seen)
            },
            Err(e) => Err(e),
        }
    } else if is_key(key, "url") {
        if seen.url.is_some() {
            return Err(WebDriverBiDiNavigationCommittedProjectionError::DuplicateRequiredMember { member: "url" });
        }
        let parsed = match cursor.parse_string_bytes() {
            Some(u) => u,
            None => return Err(WebDriverBiDiNavigationCommittedProjectionError::InvalidStructure),
        };
        if str_from_utf8(parsed.as_slice()).is_none() {
            return Err(WebDriverBiDiNavigationCommittedProjectionError::InvalidStructure);
        }
        if parsed.len() > MAX_WEBDRIVER_BIDI_NAVIGATION_URL_BYTES {
            return Err(WebDriverBiDiNavigationCommittedProjectionError::UrlTooLarge {
                maximum_bytes: MAX_WEBDRIVER_BIDI_NAVIGATION_URL_BYTES,
            });
        }
        seen.url = Some(parsed);
        Ok(seen)
    } else {
        if !cursor.skip_value() {
            return Err(WebDriverBiDiNavigationCommittedProjectionError::InvalidStructure);
        }
        Ok(seen)
    }
}

fn finish_params_state(seen: ParamsState) -> (result: Result<
    NavigationInfoBytes,
    WebDriverBiDiNavigationCommittedProjectionError,
>)
    requires
        seen.is_text(),
    ensures
        match finish_params(seen@) {
            Ok(info) => result matches Ok(r) && r@ == info && r.is_text(),
            Err(e) => result == Err::<NavigationInfoBytes, WebDriverBiDiNavigationCommittedProjectionError>(e),
        },
{
    let context = match seen.context {
        Some(c) => c,
        None => return Err(WebDriverBiDiNavigationCommittedProjectionError::MissingRequiredMember { member: "context" }),
    };
    if !seen.navigation_seen {
        return Err(WebDriverBiDiNavigationCommittedProjectionError::MissingRequiredMember { member: "navigation" });
    }
    let timestamp = match seen.timestamp {
        Some(t) => t,
        None => return Err(WebDriverBiDiNavigationCommittedProjectionError::MissingRequiredMember { member: "timestamp" }),
    };
    let url = match seen.url {
        Some(u) => u,
        None => return Err(WebDriverBiDiNavigationCommittedProjectionError::MissingRequiredMember { member: "url" }),
    };
    Ok(NavigationInfoBytes { context, navigation: seen.navigation, timestamp, url })
}

fn parse_params_object(cursor: &mut ProjectionCursor) -> (result: Result<
    NavigationInfoBytes,
    WebDriverBiDiNavigationCommittedProjectionError,
>)
    ensures
        final(cursor).bytes() == old(cursor).bytes(),
        final(cursor).position() >= old(cursor).position(),
        match params_object(old(cursor).bytes(), old(cursor).position()) {
            Ok((end, info)) => result matches Ok(r) && r@ == info && r.is_text()
                && final(cursor).position() == end,
            Err(e) => result == Err::<NavigationInfoBytes, WebDriverBiDiNavigationCommittedProjectionError>(e),
        },
{
    let ghost s = cursor.bytes();
    let ghost start = cursor.position();
    if !cursor.consume_byte(OPEN_BRACE) {
        return Err(WebDriverBiDiNavigationCommittedProjectionError::InvalidStructure);
    }
    cursor.skip_whitespace();
    if cursor.consume_byte(CLOSE_BRACE) {
        return Err(WebDriverBiDiNavigationCommittedProjectionError::MissingRequiredMember { member: "context" });
    }
    let mut seen = ParamsState { context: None, navigation_seen: false, navigation: None, timestamp: None, url: None };
    loop
        invariant
            cursor.bytes() == s,
            s == old(cursor).bytes(),
            start == old(cursor).position(),
            cursor.position() > start,
            seen.is_text(),
            params_object(s, start) == params_members(s, cursor.position(), seen@),
        decreases s.len() - cursor.position(),
    {
        let ghost j = cursor.position();
        proof {
            use_type_invariant(&*cursor);
        }
        let key = match cursor.parse_member_name() {
            Some(key) => key,
            None => return Err(WebDriverBiDiNavigationCommittedProjectionError::InvalidStructure),
        };
        let next = match parse_params_member(cursor, &key, seen) {
            Ok(next) => next,
            Err(e) => return Err(e),
        };
        match cursor.member_separator() {
            MemberSeparator::Close => return finish_params_state(next),
            MemberSeparator::Comma => {},
            MemberSeparator::Other => return Err(WebDriverBiDiNavigationCommittedProjectionError::InvalidStructure),
        }
        seen = next;
        proof {
            assert(cursor.position() > j);
        }
    }
}

fn project_navigation(text: &str) -> (result: Result<
    NavigationInfoBytes,
    WebDriverBiDiNavigationCommittedProjectionError,
>)
    ensures
        match navigation_projection(encode_utf8(text@)) {
            Ok(info) => result matches Ok(r) && r@ == info && r.is_text(),
            Err(e) => result == Err::<NavigationInfoBytes, WebDriverBiDiNavigationCommittedProjectionError>(e),
        },
{
    let mut cursor = ProjectionCursor::new(text);
    let ghost s = cursor.bytes();
    cursor.skip_whitespace();
    if !cursor.consume_byte(OPEN_BRACE) {
        return Err(WebDriverBiDiNavigationCommittedProjectionError::InvalidStructure);
    }
    cursor.skip_whitespace();
    if cursor.consume_byte(CLOSE_BRACE) {
        return Err(WebDriverBiDiNavigationCommittedProjectionError::MissingRequiredMember { member: "params" });
    }
    let mut projection: Option<NavigationInfoBytes> = None;
    loop
        invariant
            cursor.bytes() == s,
            s == encode_utf8(text@),
            projection matches Some(p) ==> p.is_text(),
            navigation_projection(s) == navigation_top_members(
                s,
                cursor.position(),
                match projection {
                    Some(p) => Some(p@),
                    None => None,
                },
            ),
        decreases s.len() - cursor.position(),
    {
        let ghost j = cursor.position();
        proof {
            use_type_invariant(&cursor);
            reveal_strlit("params");
        }
        let key = match cursor.parse_member_name() {
            Some(key) => key,
            None => return Err(WebDriverBiDiNavigationCommittedProjectionError::InvalidStructure),
        };
        if is_key(&key, "params") {
            if projection.is_some() {
                return Err(WebDriverBiDiNavigationCommittedProjectionError::DuplicateRequiredMember { member: "params" });
            }
            match parse_params_object(&mut cursor) {
                Ok(info) => projection = Some(info),
                Err(e) => return Err(e),
            }
        } else if !cursor.skip_value() {
            return Err(WebDriverBiDiNavigationCommittedProjectionError::InvalidStructure);
        }
        match cursor.member_separator() {
            MemberSeparator::Close => {
                cursor.skip_whitespace();
                if cursor.current_byte().is_some() {
                    return Err(WebDriverBiDiNavigationCommittedProjectionError::InvalidStructure);
                }
                return match projection {
                    None => Err(WebDriverBiDiNavigationCommittedProjectionError::MissingRequiredMember { member: "params" }),
                    Some(info) => Ok(info),
                };
            },
            MemberSeparator::Comma => {},
            MemberSeparator::Other => return Err(WebDriverBiDiNavigationCommittedProjectionError::InvalidStructure),
        }
        proof {
            assert(cursor.position() > j);
        }
    }
}

fn bytes_to_string(bytes: Vec<u8>) -> (text: String)
    requires
        valid_utf8(bytes@),
    ensures
        encode_utf8(text@) == bytes@,
{
    let ghost b = bytes@;
    match string_from_utf8(bytes) {
        Some(text) => {
            proof {
                decode_utf8_encode_utf8(b);
            }
            text
        },
        None => {
            proof {
                assert(false);
            }
            String::new()
        },
    }
}

/// The W3C `browsingContext.NavigationInfo` fields of one committed-navigation event.
#[derive(Debug)]
pub struct NavigationCommittedProjection {
    /// The external browsing-context identifier.
    pub context: String,
    /// The opaque navigation identifier, `None` when the event carries `null`.
    pub navigation_id: Option<String>,
    /// The event timestamp.
    pub timestamp: u64,
    /// The committed serialized URL.
    pub url: String,
}

impl NavigationCommittedProjection {
    /// Project the `params` fields out of one committed-navigation event document.
    pub fn parse(input: &str) -> (result: Result<Self, WebDriverBiDiNavigationCommittedProjectionError>)
        ensures
            match navigation_projection(encode_utf8(input@)) {
                Ok(info) => result matches Ok(p) && encode_utf8(p.context@) == info.context
                    && encode_utf8(p.url@) == info.url && p.timestamp == info.timestamp
                    && match info.navigation {
                        Some(n) => p.navigation_id matches Some(t) && encode_utf8(t@) == n,
                        None => p.navigation_id is None,
                    },
                Err(e) => result == Err::<Self, WebDriverBiDiNavigationCommittedProjectionError>(e),
            },
    {
        match project_navigation(input) {
            Ok(info) => {
                let navigation_id = match info.navigation {
                    Some(n) => Some(bytes_to_string(n)),
                    None => None,
                };
                Ok(NavigationCommittedProjection {
                    context: bytes_to_string(info.context),
                    navigation_id,
                    timestamp: info.timestamp,
                    url: bytes_to_string(info.url),
                })
            },
            Err(e) => Err(e),
        }
    }
}


proof fn lemma_digit_run_ends_where_digits_end(s: Seq<u8>, i: int, e: int)
    requires
        0 <= i <= e <= s.len(),
        all_digits(s, i, e),
        e == s.len() || !is_number_byte(s[e]),
    ensures
        number_run_end(s, i) == e,
    decreases e - i,
{
    if i < e {
        assert(is_digit(s[i]));
        lemma_digit_run_ends_where_digits_end(s, i + 1, e);
    }
}

/// A timestamp written as a plain run of decimal digits (ended by the end of the document or by a
/// byte that cannot continue a number) is accepted with exactly its decimal value whenever that
/// value is at most 2^53 - 1, and refused as `InvalidTimestamp` when it is larger.
pub proof fn lemma_plain_decimal_timestamps_are_accepted_up_to_js_uint(s: Seq<u8>, k: int, e: int)
    requires
        0 <= k < e <= s.len(),
        all_digits(s, k, e),
        e == s.len() || !is_number_byte(s[e]),
    ensures
        decimal_value(s, k, e) <= 9_007_199_254_740_991 ==> js_uint_value(s, k) == Ok::<
            (int, u64),
            WebDriverBiDiNavigationCommittedProjectionError,
        >((e, decimal_value(s, k, e) as u64)) && decimal_value(s, k, e) as u64 == decimal_value(s, k, e),
        decimal_value(s, k, e) > 9_007_199_254_740_991 ==> js_uint_value(s, k) == Err::<
            (int, u64),
            WebDriverBiDiNavigationCommittedProjectionError,
        >(WebDriverBiDiNavigationCommittedProjectionError::InvalidTimestamp),
{
    lemma_digit_run_ends_where_digits_end(s, k, e);
}

} // verus!
