use originweave_network::command_correlation::{
    WebDriverBiDiCommandCorrelation, WebDriverBiDiCommandCorrelationError, WebDriverBiDiCommandKind,
    WebDriverBiDiCorrelatedResponseOutcome,
};
use originweave_network::json_envelope::WebDriverBiDiJsonEnvelope;
use originweave_network::received_message::{WebDriverBiDiConnectionGenerationCounter, WebDriverBiDiConnectionInbox};
use originweave_network::text_message::WebDriverBiDiWebSocketTextMessage;
use originweave_network::type_text_intent::{
    acknowledge_webdriver_bidi_type_text_intent, register_webdriver_bidi_type_text_intent,
    WebDriverBiDiTypeTextIntentAcknowledgementError,
};

fn message(text: &str) -> WebDriverBiDiWebSocketTextMessage {
    WebDriverBiDiWebSocketTextMessage::new(text).expect("bounded test message")
}

fn envelope(text: &str) -> WebDriverBiDiJsonEnvelope {
    WebDriverBiDiJsonEnvelope::parse(&message(text)).expect("valid envelope")
}

#[test]
fn generations_are_handed_out_once_in_increasing_order() {
    let mut generations = WebDriverBiDiConnectionGenerationCounter::new();
    let first = generations.allocate().expect("generation available");
    let second = generations.allocate().expect("generation available");
    let third = generations.allocate().expect("generation available");
    assert_eq!((first.value(), second.value(), third.value()), (1, 2, 3));
    assert_ne!(first, second);
}

#[test]
fn inbox_binds_messages_to_its_connection() {
    let mut generations = WebDriverBiDiConnectionGenerationCounter::new();
    let generation = generations.allocate().expect("generation available");
    let inbox = WebDriverBiDiConnectionInbox::new(generation);
    assert_eq!(inbox.connection_generation(), generation);
    let received = inbox.receive(message(r#"{"type":"success","id":1,"result":{}}"#));
    assert_eq!(received.connection_generation(), generation);
    assert_eq!(received.message().as_str(), r#"{"type":"success","id":1,"result":{}}"#);
}

#[test]
fn registration_and_correlation_move_the_outstanding_count_by_one() {
    let mut correlation = WebDriverBiDiCommandCorrelation::new();
    assert_eq!(correlation.outstanding_count(), 0);
    correlation.register_command(1).expect("registered");
    correlation.register_command_for(2, WebDriverBiDiCommandKind::TextValueObservation).expect("registered");
    assert_eq!(correlation.outstanding_count(), 2);
    assert_eq!(
        correlation.register_command(2),
        Err(WebDriverBiDiCommandCorrelationError::CommandAlreadyOutstanding)
    );
    assert_eq!(correlation.outstanding_count(), 2);
    let answered = correlation
        .correlate_response(&envelope(r#"{"type":"success","id":1,"result":{}}"#))
        .expect("correlated");
    assert_eq!(answered.command_id(), 1);
    assert_eq!(correlation.outstanding_count(), 1);
}

#[test]
fn typed_command_is_refused_to_the_unclassified_consumer_and_consumed_by_its_family() {
    let mut correlation = WebDriverBiDiCommandCorrelation::new();
    correlation.register_command_for(5, WebDriverBiDiCommandKind::TextValueObservation).expect("registered");
    let n = correlation.outstanding_count();
    assert_eq!(n, 1);
    let response = envelope(r#"{"type":"success","id":5,"result":{}}"#);
    assert_eq!(
        correlation.correlate_response(&response).err(),
        Some(WebDriverBiDiCommandCorrelationError::CommandKindMismatch)
    );
    assert_eq!(correlation.outstanding_count(), n);
    let answered = correlation
        .correlate_response_for(&response, WebDriverBiDiCommandKind::TextValueObservation)
        .expect("correlated");
    assert_eq!(answered.command_id(), 5);
    assert_eq!(answered.outcome(), WebDriverBiDiCorrelatedResponseOutcome::Success);
    assert_eq!(correlation.outstanding_count(), n - 1);
    assert_eq!(
        correlation.retire_command(5),
        Err(WebDriverBiDiCommandCorrelationError::CommandNotOutstanding)
    );
}

#[test]
fn type_text_intent_is_acknowledged_only_on_its_connection() {
    let mut generations = WebDriverBiDiConnectionGenerationCounter::new();
    let carrying = generations.allocate().expect("generation available");
    let other = generations.allocate().expect("generation available");
    let mut correlation = WebDriverBiDiCommandCorrelation::new();
    let witness = register_webdriver_bidi_type_text_intent(&mut correlation, 12, carrying, "héllo")
        .expect("registered");
    assert_eq!(witness.command_id(), 12);
    assert!(correlation.is_outstanding(12));
    assert_eq!(
        register_webdriver_bidi_type_text_intent(&mut correlation, 12, carrying, "again").err(),
        Some(WebDriverBiDiCommandCorrelationError::CommandAlreadyOutstanding)
    );

    let text = r#"{"type":"success","id":12,"result":{}}"#;
    let elsewhere = WebDriverBiDiConnectionInbox::new(other).receive(message(text));
    let refused = acknowledge_webdriver_bidi_type_text_intent(&elsewhere, witness, &mut correlation);
    assert_eq!(
        refused.err(),
        Some(WebDriverBiDiTypeTextIntentAcknowledgementError::ResponseConnectionMismatch)
    );
    assert!(correlation.is_outstanding(12));

    let witness = register_webdriver_bidi_type_text_intent(&mut correlation, 13, carrying, "héllo")
        .expect("registered");
    let here = WebDriverBiDiConnectionInbox::new(carrying)
        .receive(message(r#"{"type":"success","id":13,"result":{}}"#));
    let acknowledged = acknowledge_webdriver_bidi_type_text_intent(&here, witness, &mut correlation)
        .expect("acknowledged");
    assert_eq!(acknowledged.command_id(), 13);
    assert_eq!(acknowledged.expected_text(), "héllo");
    assert!(acknowledged.matches_connection_generation(carrying));
    assert!(!acknowledged.matches_connection_generation(other));
    assert!(!correlation.is_outstanding(13));
}
