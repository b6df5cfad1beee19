//! Verified WebDriver BiDi local-end protocol logic.

pub mod acknowledgement;
pub mod command_correlation;
pub mod connect_retry;
pub mod error_source;
pub mod exchange_budget;
pub mod exchange_state;
pub mod frame_error;
pub mod json_envelope;
pub mod json_text;
pub mod mcp_request;
pub mod navigation_observation;
pub mod navigation_postcondition;
pub mod origin_port;
pub mod pointer_click_response;
pub mod pointer_click_send;
pub mod projection_cursor;
pub mod received_message;
pub mod script_result_projection;
pub mod session_end_command;
pub mod session_end_response;
pub mod session_status_command;
pub mod session_teardown;
pub mod session_status_response;
pub mod subscription_admission;
pub mod subscription_command;
pub mod subscription_response;
pub mod text_policy;
pub mod text_value_observation_response;
pub mod text_value_postcondition;
pub mod type_text_intent;
pub mod unsubscribe_command;
pub mod unsubscribe_response;
pub mod text_message;
