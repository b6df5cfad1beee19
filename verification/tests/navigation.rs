use originweave_network::navigation_observation::{
    WebDriverBiDiNavigationCommittedObservation, WebDriverBiDiNavigationCommittedObservationError,
};
use originweave_network::text_message::WebDriverBiDiWebSocketTextMessage;

const NAVIGATION_COMMITTED_EVENT: &str = r#"{"type":"event","method":"browsingContext.navigationCommitted","params":{"context":"a","navigation":null,"timestamp":0,"url":"x"}}"#;
const NAVIGATION_COMMITTED_UTF8_EVENT: &str = r#"{"type":"event","method":"browsingContext.navigationCommitted","params":{"context":"a","navigation":null,"timestamp":1,"url":"https://example.test/café"}}"#;
const NAVIGATION_COMMITTED_MISSING_CONTEXT: &str = r#"{"type":"event","method":"browsingContext.navigationCommitted","params":{"navigation":null,"timestamp":0,"url":"x"}}"#;
const MALFORMED_NAVIGATION_COMMITTED_EVENT: &str =
    r#"{"type":"event","method":"browsingContext.navigationCommitted","params":"#;
const OTHER_EVENT: &str = r#"{"type":"event","method":"x.y","params":{}}"#;

fn message(text: &str) -> WebDriverBiDiWebSocketTextMessage {
    WebDriverBiDiWebSocketTextMessage::new(text).expect("bounded test message")
}

#[test]
fn committed_navigation_of_the_registered_context_is_observed_and_redacted() {
    let observation =
        WebDriverBiDiNavigationCommittedObservation::parse_and_match(&message(NAVIGATION_COMMITTED_EVENT), "a", "x")
            .expect("observed");
    assert_eq!(observation.navigation_id(), None);
    assert_eq!(observation.timestamp(), 0);
    assert_eq!(observation.url(), "x");
    let debug = format!("{observation:?}");
    assert!(debug.contains("WebDriverBiDiNavigationCommittedObservation"));
    assert!(debug.contains("has_navigation_id: false"));
    assert!(!debug.contains("url: \"x\""));

    let utf8 = WebDriverBiDiNavigationCommittedObservation::parse_and_match(
        &message(NAVIGATION_COMMITTED_UTF8_EVENT),
        "a",
        "https://example.test/café",
    )
    .expect("observed");
    assert_eq!(utf8.timestamp(), 1);
    assert_eq!(utf8.url(), "https://example.test/café");
}

#[test]
fn committed_navigation_refuses_other_contexts_urls_and_events() {
    let event = message(NAVIGATION_COMMITTED_EVENT);
    assert_eq!(
        WebDriverBiDiNavigationCommittedObservation::parse_and_match(&event, "b", "x").err(),
        Some(WebDriverBiDiNavigationCommittedObservationError::ContextBinding)
    );
    assert_eq!(
        WebDriverBiDiNavigationCommittedObservation::parse_and_match(&event, "a", "y").err(),
        Some(WebDriverBiDiNavigationCommittedObservationError::UnexpectedUrl)
    );
    assert_eq!(
        WebDriverBiDiNavigationCommittedObservation::parse_and_match(&message(OTHER_EVENT), "a", "x").err(),
        Some(WebDriverBiDiNavigationCommittedObservationError::UnexpectedEvent)
    );
    assert!(matches!(
        WebDriverBiDiNavigationCommittedObservation::parse_and_match(&message(NAVIGATION_COMMITTED_MISSING_CONTEXT), "a", "x"),
        Err(WebDriverBiDiNavigationCommittedObservationError::Projection { .. })
    ));
    assert!(matches!(
        WebDriverBiDiNavigationCommittedObservation::parse_and_match(&message(MALFORMED_NAVIGATION_COMMITTED_EVENT), "a", "x"),
        Err(WebDriverBiDiNavigationCommittedObservationError::Envelope { .. })
    ));
    let projection = WebDriverBiDiNavigationCommittedObservationError::UnexpectedUrl;
    assert!(!projection.to_string().is_empty());
    assert!(!projection.has_source());
}
