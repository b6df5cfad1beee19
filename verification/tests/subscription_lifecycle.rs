use originweave_network::command_correlation::WebDriverBiDiCommandCorrelation;
use originweave_network::json_envelope::MAX_WEBDRIVER_BIDI_JS_UINT;
use originweave_network::navigation_observation::WebDriverBiDiNavigationCommittedObservationError;
use originweave_network::subscription_admission::{
    WebDriverBiDiNavigationCommittedSubscriptionAdmission, WebDriverBiDiNavigationCommittedSubscriptionAdmissionError,
};
use originweave_network::subscription_command::{
    WebDriverBiDiNavigationCommittedSubscriptionCommand, WebDriverBiDiNavigationCommittedSubscriptionCommandError,
};
use originweave_network::subscription_response::WebDriverBiDiNavigationCommittedSubscriptionResult;
use originweave_network::text_message::WebDriverBiDiWebSocketTextMessage;

fn message(text: &str) -> WebDriverBiDiWebSocketTextMessage {
    WebDriverBiDiWebSocketTextMessage::new(text).expect("bounded test message")
}

#[test]
fn subscription_lifecycle_binds_events_and_teardown_to_the_exact_receipt() {
    let mut correlation = WebDriverBiDiCommandCorrelation::new();
    let command = WebDriverBiDiNavigationCommittedSubscriptionCommand::new(1, "ctx-a").expect("in range");
    let binding = command.admission_binding();
    assert_eq!(binding.command_id(), 1);
    assert_eq!(binding.external_context(), "ctx-a");
    assert!(!format!("{binding:?}").contains("ctx-a"));
    let text = command.send(&mut correlation).expect("registered");
    assert_eq!(
        text,
        r#"{"id":1,"method":"session.subscribe","params":{"events":["browsingContext.navigationCommitted"],"contexts":["ctx-a"]}}"#
    );

    let receipt = WebDriverBiDiNavigationCommittedSubscriptionResult::parse_and_correlate(
        &message(r#"{"type":"success","id":1,"result":{"subscription":"sub-9"}}"#),
        &mut correlation,
    )
    .expect("correlated");
    let admission = WebDriverBiDiNavigationCommittedSubscriptionAdmission::new(receipt, binding).expect("bound");

    let event = message(r#"{"type":"event","method":"browsingContext.navigationCommitted","params":{"context":"ctx-a","navigation":"n-1","timestamp":5,"url":"https://example.test/"}}"#);
    let observed = admission.admit_event(&event, "https://example.test/").expect("admitted");
    assert_eq!(observed.observation().navigation_id(), Some("n-1"));
    assert_eq!(observed.observation().timestamp(), 5);

    let foreign = message(r#"{"type":"event","method":"browsingContext.navigationCommitted","params":{"context":"ctx-b","navigation":null,"timestamp":5,"url":"https://example.test/"}}"#);
    assert_eq!(
        admission.admit_event(&foreign, "https://example.test/").err(),
        Some(WebDriverBiDiNavigationCommittedObservationError::ContextBinding)
    );

    let unsubscribe = admission.into_unsubscribe(2).expect("in range");
    assert_eq!(
        unsubscribe.serialized(),
        r#"{"id":2,"method":"session.unsubscribe","params":{"subscriptions":["sub-9"]}}"#
    );
}

#[test]
fn receipts_of_other_commands_are_not_bound() {
    let command = WebDriverBiDiNavigationCommittedSubscriptionCommand::new(3, "ctx-a").expect("in range");
    let binding = command.admission_binding();
    let mut correlation = WebDriverBiDiCommandCorrelation::new();
    correlation.register_command(4).expect("registered");
    let receipt = WebDriverBiDiNavigationCommittedSubscriptionResult::parse_and_correlate(
        &message(r#"{"type":"success","id":4,"result":{"subscription":"sub"}}"#),
        &mut correlation,
    )
    .expect("bounded");
    let refused = WebDriverBiDiNavigationCommittedSubscriptionAdmission::new(receipt, binding);
    let error = refused.err().expect("refused");
    assert_eq!(
        error,
        WebDriverBiDiNavigationCommittedSubscriptionAdmissionError::CommandIdMismatch {
            subscription_command_id: 4,
            binding_command_id: 3
        }
    );
    assert!(!error.to_string().is_empty());

    let out_of_range = WebDriverBiDiNavigationCommittedSubscriptionCommand::new(MAX_WEBDRIVER_BIDI_JS_UINT + 1, "ctx");
    assert!(matches!(
        out_of_range,
        Err(WebDriverBiDiNavigationCommittedSubscriptionCommandError::CommandIdOutOfRange { .. })
    ));
    assert_eq!(
        out_of_range.err().map(|e| e.to_string()).as_deref(),
        Some("WebDriver BiDi navigation subscription command id is outside the js-uint range")
    );
}
