//! The lower-level error that a protocol-boundary error wraps, when it wraps one.

use vstd::prelude::*;

use crate::command_correlation::WebDriverBiDiCommandCorrelationError;
use crate::frame_error::WebDriverBiDiWebSocketFrameError;
use crate::json_envelope::WebDriverBiDiJsonEnvelopeError;
use crate::script_result_projection::WebDriverBiDiTextValueObservationProjectionError;

verus! {

/// The wrapped cause of a protocol-boundary error.
#[derive(Debug)]
pub enum WebDriverBiDiErrorSource<'a> {
    /// Common local-end envelope validation failed.
    Envelope(&'a WebDriverBiDiJsonEnvelopeError),
    /// Command-response correlation failed.
    Correlation(&'a WebDriverBiDiCommandCorrelationError),
    /// A bounded WebSocket frame operation failed.
    Frame(&'a WebDriverBiDiWebSocketFrameError),
    /// The command-specific script result could not be projected.
    Projection(&'a WebDriverBiDiTextValueObservationProjectionError),
}

} // verus!
