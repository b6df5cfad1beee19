//! Registration of one validated pointer-click command before its frame is written.

use vstd::prelude::*;

use crate::command_correlation::{
    registration_outcome, WebDriverBiDiCommandCorrelation, WebDriverBiDiCommandCorrelationError,
    WebDriverBiDiCommandKind,
};
use crate::error_source::WebDriverBiDiErrorSource;
use crate::frame_error::WebDriverBiDiWebSocketFrameError;

verus! {

/// Fail-closed errors while transporting one already validated pointer-click command.
#[derive(Debug)]
pub enum WebDriverBiDiPointerClickSendError {
    /// The bounded correlation registry rejected the command before any frame was written.
    Correlation {
        /// Exact typed correlation failure.
        source: WebDriverBiDiCommandCorrelationError,
    },
    /// Writing the already-registered command frame failed and the transport is not reusable.
    FrameWrite {
        /// Exact typed bounded WebSocket frame-write failure.
        source: WebDriverBiDiWebSocketFrameError,
    },
}

impl WebDriverBiDiPointerClickSendError {
    /// Stable operator-facing description.
    pub open spec fn description(&self) -> Seq<char> {
        match self {
            WebDriverBiDiPointerClickSendError::Correlation { .. } => "WebDriver BiDi pointer-click command correlation was rejected"@,
            WebDriverBiDiPointerClickSendError::FrameWrite { .. } => "WebDriver BiDi pointer-click command frame write failed"@,
        }
    }

    /// Stable operator-facing description.
    pub fn to_string(&self) -> (text: String)
        ensures
            text@ == self.description(),
    {
        match self {
            WebDriverBiDiPointerClickSendError::Correlation { .. } => "WebDriver BiDi pointer-click command correlation was rejected".to_owned(),
            WebDriverBiDiPointerClickSendError::FrameWrite { .. } => "WebDriver BiDi pointer-click command frame write failed".to_owned(),
        }
    }

    /// The wrapped correlation or frame failure.
    pub fn source(&self) -> (source: Option<WebDriverBiDiErrorSource<'_>>)
        ensures
            match self {
                WebDriverBiDiPointerClickSendError::Correlation { source: e } => source == Some(WebDriverBiDiErrorSource::Correlation(e)),
                WebDriverBiDiPointerClickSendError::FrameWrite { source: e } => source == Some(WebDriverBiDiErrorSource::Frame(e)),
            },
    {
        match self {
            WebDriverBiDiPointerClickSendError::Correlation { source } => Some(WebDriverBiDiErrorSource::Correlation(source)),
            WebDriverBiDiPointerClickSendError::FrameWrite { source } => Some(WebDriverBiDiErrorSource::Frame(source)),
        }
    }
}

/// Register the validated pointer-click command `command_id` as a pointer click, before its frame
/// is written; a refused registration means nothing may be written.
pub fn register_webdriver_bidi_pointer_click(
    correlation: &mut WebDriverBiDiCommandCorrelation,
    command_id: u64,
) -> (result: Result<(), WebDriverBiDiPointerClickSendError>)
    ensures
        registration_outcome(
            old(correlation)@,
            final(correlation)@,
            command_id,
            (Some(WebDriverBiDiCommandKind::PointerClick), None),
            match result {
                Ok(()) => Ok(()),
                Err(WebDriverBiDiPointerClickSendError::Correlation { source }) => Err(source),
                Err(_) => Err(WebDriverBiDiCommandCorrelationError::CommandIdOutOfRange),
            },
        ),
        result is Err ==> result matches Err(WebDriverBiDiPointerClickSendError::Correlation { .. }),
{
    match correlation.register_command_for(command_id, WebDriverBiDiCommandKind::PointerClick) {
        Ok(()) => Ok(()),
        Err(source) => Err(WebDriverBiDiPointerClickSendError::Correlation { source }),
    }
}

} // verus!
