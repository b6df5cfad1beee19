//! Admission of one committed-navigation event as the post-condition of a navigation: the event
//! must name the registered browsing context and commit exactly the expected URL.

use vstd::prelude::*;
use vstd::utf8::*;

use crate::json_envelope::{
    parse_envelope, WebDriverBiDiJsonEnvelope, WebDriverBiDiJsonEnvelopeError, WebDriverBiDiJsonEnvelopeKind,
};
use crate::json_text::text_equal;
use crate::navigation_postcondition::{
    navigation_projection, NavigationCommittedProjection, SpecNavigationInfo,
    WebDriverBiDiNavigationCommittedProjectionError, WEBDRIVER_BIDI_NAVIGATION_COMMITTED_METHOD,
};
use crate::text_message::{str_from_utf8, WebDriverBiDiWebSocketTextMessage};

verus! {

/// Fail-closed failures while admitting one committed-navigation observation.
#[derive(Clone, Debug, PartialEq, Eq)]
pub enum WebDriverBiDiNavigationCommittedObservationError {
    /// Common local-end JSON envelope validation failed.
    Envelope {
        /// Exact common-envelope validation failure.
        source: WebDriverBiDiJsonEnvelopeError,
    },
    /// The message is not a `browsingContext.navigationCommitted` event.
    UnexpectedEvent,
    /// The event's `NavigationInfo` fields could not be projected.
    Projection {
        /// Exact projection failure.
        source: WebDriverBiDiNavigationCommittedProjectionError,
    },
    /// The event names a browsing context other than the registered one.
    ContextBinding,
    /// The committed URL is not the expected post-condition URL.
    UnexpectedUrl,
}

impl WebDriverBiDiNavigationCommittedObservationError {
    /// Stable operator-facing description.
    pub open spec fn description(&self) -> Seq<char> {
        match self {
            WebDriverBiDiNavigationCommittedObservationError::Envelope { .. } => "WebDriver BiDi navigation-committed envelope is invalid"@,
            WebDriverBiDiNavigationCommittedObservationError::UnexpectedEvent => "WebDriver BiDi message is not a navigation-committed event"@,
            WebDriverBiDiNavigationCommittedObservationError::Projection { .. } => "WebDriver BiDi navigation-committed params are invalid"@,
            WebDriverBiDiNavigationCommittedObservationError::ContextBinding => "WebDriver BiDi navigation-committed context is not the registered context"@,
            WebDriverBiDiNavigationCommittedObservationError::UnexpectedUrl => "WebDriver BiDi navigation-committed URL does not match the expected URL"@,
        }
    }

    /// Stable operator-facing description.
    pub fn to_string(&self) -> (text: String)
        ensures
            text@ == self.description(),
    {
        match self {
            WebDriverBiDiNavigationCommittedObservationError::Envelope { .. } => "WebDriver BiDi navigation-committed envelope is invalid".to_owned(),
            WebDriverBiDiNavigationCommittedObservationError::UnexpectedEvent => "WebDriver BiDi message is not a navigation-committed event".to_owned(),
            WebDriverBiDiNavigationCommittedObservationError::Projection { .. } => "WebDriver BiDi navigation-committed params are invalid".to_owned(),
            WebDriverBiDiNavigationCommittedObservationError::ContextBinding => "WebDriver BiDi navigation-committed context is not the registered context".to_owned(),
            WebDriverBiDiNavigationCommittedObservationError::UnexpectedUrl => "WebDriver BiDi navigation-committed URL does not match the expected URL".to_owned(),
        }
    }

    /// Whether this error wraps an envelope or projection failure.
    pub fn has_source(&self) -> (wraps: bool)
        ensures
            wraps == (self is Envelope || self is Projection),
    {
        match self {
            WebDriverBiDiNavigationCommittedObservationError::Envelope { .. } => true,
            WebDriverBiDiNavigationCommittedObservationError::Projection { .. } => true,
            _ => false,
        }
    }
}

/// Admission of one committed-navigation event for the browsing context registered under the
/// external identifier `registered_context`, expecting the committed URL `expected_url` (all as
/// UTF-8 bytes): the projected fields, or why the event is refused.
pub open spec fn navigation_observation(
    s: Seq<u8>,
    registered_context: Seq<u8>,
    expected_url: Seq<u8>,
) -> Result<SpecNavigationInfo, WebDriverBiDiNavigationCommittedObservationError> {
    match parse_envelope(s) {
        Err(e) => Err(WebDriverBiDiNavigationCommittedObservationError::Envelope { source: e }),
        Ok(envelope) => if !(envelope.kind == WebDriverBiDiJsonEnvelopeKind::Event && (envelope.method matches Some(m)
            && decode_utf8(m) == WEBDRIVER_BIDI_NAVIGATION_COMMITTED_METHOD@)) {
            Err(WebDriverBiDiNavigationCommittedObservationError::UnexpectedEvent)
        } else {
            match navigation_projection(s) {
                Err(p) => Err(WebDriverBiDiNavigationCommittedObservationError::Projection { source: p }),
                Ok(info) => if info.context != registered_context {
                    Err(WebDriverBiDiNavigationCommittedObservationError::ContextBinding)
                } else if info.url != expected_url {
                    Err(WebDriverBiDiNavigationCommittedObservationError::UnexpectedUrl)
                } else {
                    Ok(info)
                },
            }
        },
    }
}

/// One committed navigation of the registered browsing context to exactly the expected URL.
///
/// The navigation identifier and URL are kept as UTF-8 bytes beside a presence flag and a length,
/// so that a debug rendering shows neither text.
#[derive(Debug)]
pub struct WebDriverBiDiNavigationCommittedObservation {
    has_navigation_id: bool,
    navigation_id: Option<Vec<u8>>,
    timestamp: u64,
    url_bytes: usize,
    url: Vec<u8>,
}

impl View for WebDriverBiDiNavigationCommittedObservation {
    type V = (Option<Seq<u8>>, u64, Seq<u8>);

    closed spec fn view(&self) -> (Option<Seq<u8>>, u64, Seq<u8>) {
        (
            match self.navigation_id {
                Some(n) => Some(n@),
                None => None,
            },
            self.timestamp,
            self.url@,
        )
    }
}

fn owned_bytes(text: &str) -> (bytes: Vec<u8>)
    ensures
        bytes@ == encode_utf8(text@),
{
    let source = text.as_bytes();
    let mut owned: Vec<u8> = Vec::new();
    let mut k: usize = 0;
    while k < source.len()
        invariant
            k <= source@.len(),
            owned@ == source@.subrange(0, k as int),
        decreases source@.len() - k,
    {
        owned.push(source[k]);
        k = k + 1;
        assert(owned@ =~= source@.subrange(0, k as int));
    }
    assert(owned@ =~= source@);
    owned
}

impl WebDriverBiDiNavigationCommittedObservation {
    /// The flags mirror the fields, and both texts are UTF-8.
    #[verifier::type_invariant]
    pub closed spec fn well_formed(&self) -> bool {
        &&& self.has_navigation_id == self.navigation_id is Some
        &&& self.navigation_id matches Some(n) ==> valid_utf8(n@)
        &&& self.url_bytes == self.url@.len()
        &&& valid_utf8(self.url@)
    }

    /// Parse one complete event, bind its context to the external identifier `registered_context`
    /// of the registered browsing context, and require the committed URL to equal `expected_url`
    /// exactly.
    pub fn parse_and_match(
        message: &WebDriverBiDiWebSocketTextMessage,
        registered_context: &str,
        expected_url: &str,
    ) -> (result: Result<Self, WebDriverBiDiNavigationCommittedObservationError>)
        ensures
            match navigation_observation(message.bytes(), encode_utf8(registered_context@), encode_utf8(expected_url@)) {
                Ok(info) => result matches Ok(o) && o@ == (info.navigation, info.timestamp, info.url),
                Err(e) => result == Err::<Self, WebDriverBiDiNavigationCommittedObservationError>(e),
            },
    {
        let envelope = match WebDriverBiDiJsonEnvelope::parse(message) {
            Ok(e) => e,
            Err(source) => return Err(WebDriverBiDiNavigationCommittedObservationError::Envelope { source }),
        };
        let is_event = match envelope.kind() {
            WebDriverBiDiJsonEnvelopeKind::Event => true,
            _ => false,
        };
        let names_method = match envelope.method() {
            Some(method) => text_equal(method, WEBDRIVER_BIDI_NAVIGATION_COMMITTED_METHOD),
            None => false,
        };
        if !is_event || !names_method {
            return Err(WebDriverBiDiNavigationCommittedObservationError::UnexpectedEvent);
        }
        let text = message.as_str();
        let projected = match NavigationCommittedProjection::parse(text) {
            Ok(p) => p,
            Err(source) => return Err(WebDriverBiDiNavigationCommittedObservationError::Projection { source }),
        };
        proof {
            encode_utf8_decode_utf8(projected.context@);
            encode_utf8_decode_utf8(registered_context@);
            encode_utf8_decode_utf8(projected.url@);
            encode_utf8_decode_utf8(expected_url@);
        }
        if !text_equal(projected.context.as_str(), registered_context) {
            return Err(WebDriverBiDiNavigationCommittedObservationError::ContextBinding);
        }
        if !text_equal(projected.url.as_str(), expected_url) {
            return Err(WebDriverBiDiNavigationCommittedObservationError::UnexpectedUrl);
        }
        let navigation_id = match &projected.navigation_id {
            Some(n) => {
                proof {
                    encode_utf8_valid_utf8(n@);
                }
                Some(owned_bytes(n.as_str()))
            },
            None => None,
        };
        let url = owned_bytes(projected.url.as_str());
        proof {
            encode_utf8_valid_utf8(projected.url@);
        }
        Ok(WebDriverBiDiNavigationCommittedObservation {
            has_navigation_id: navigation_id.is_some(),
            navigation_id,
            timestamp: projected.timestamp,
            url_bytes: url.len(),
            url,
        })
    }

    /// The opaque navigation identifier, when the event carried one.
    pub fn navigation_id(&self) -> (navigation_id: Option<&str>)
        ensures
            match self@.0 {
                Some(n) => navigation_id matches Some(t) && t@ == decode_utf8(n),
                None => navigation_id is None,
            },
    {
        proof {
            use_type_invariant(self);
        }
        match &self.navigation_id {
            Some(n) => str_from_utf8(n.as_slice()),
            None => None,
        }
    }

    /// The event timestamp.
    pub fn timestamp(&self) -> (timestamp: u64)
        ensures
            timestamp == self@.1,
    {
        self.timestamp
    }

    /// The committed URL, equal to the expected URL.
    pub fn url(&self) -> (url: &str)
        ensures
            url@ == decode_utf8(self@.2),
    {
        proof {
            use_type_invariant(self);
        }
        match str_from_utf8(self.url.as_slice()) {
            Some(text) => text,
            None => {
                proof {
                    assert(false);
                }
                ""
            },
        }
    }
}


/// An admitted committed navigation is of exactly the registered context and to exactly the
/// expected URL: both equal them byte for byte, and the same event checked against any other URL is refused as `UnexpectedUrl`.
pub proof fn lemma_observation_commits_exactly_the_expected_url(
    s: Seq<u8>,
    registered_context: Seq<u8>,
    expected_url: Seq<u8>,
    other_url: Seq<u8>,
)
    ensures
        navigation_observation(s, registered_context, expected_url) matches Ok(info) ==> info.url
            == expected_url && info.context == registered_context,
        navigation_observation(s, registered_context, expected_url) is Ok && other_url != expected_url
            ==> navigation_observation(s, registered_context, other_url) == Err::<
            SpecNavigationInfo,
            WebDriverBiDiNavigationCommittedObservationError,
        >(WebDriverBiDiNavigationCommittedObservationError::UnexpectedUrl),
{
}

} // verus!
