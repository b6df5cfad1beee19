//! The typed WebDriver BiDi `session.end` command.

use vstd::prelude::*;
use vstd::string::StringExecFns;
use vstd::utf8::*;

use crate::command_correlation::{
    registration_outcome, WebDriverBiDiCommandCorrelation, WebDriverBiDiCommandCorrelationError,
    WebDriverBiDiCommandKind,
};
use crate::error_source::WebDriverBiDiErrorSource;
use crate::frame_error::WebDriverBiDiWebSocketFrameError;
use crate::json_envelope::MAX_WEBDRIVER_BIDI_JS_UINT;
use crate::json_text::{decimal_digits, decimal_text};
use crate::received_message::WebDriverBiDiConnectionGeneration;

verus! {

/// Fail-closed errors while constructing or sending one typed `session.end` command.
#[derive(Debug)]
pub enum WebDriverBiDiSessionEndCommandError {
    /// The requested command identifier is outside WebDriver BiDi's `js-uint` range.
    CommandIdOutOfRange {
        /// Rejected command identifier.
        command_id: u64,
        /// Largest JavaScript-safe identifier admitted by this boundary.
        maximum_command_id: u64,
    },
    /// The bounded local correlation registry rejected the command before any frame was written.
    Correlation {
        /// Exact typed correlation failure.
        source: WebDriverBiDiCommandCorrelationError,
    },
    /// Writing the already-registered command frame failed and the transport is not reusable.
    FrameWrite {
        /// Exact typed bounded WebSocket frame-write failure.
        source: WebDriverBiDiWebSocketFrameError,
    },
}

impl WebDriverBiDiSessionEndCommandError {
    /// Stable operator-facing description.
    pub open spec fn description(&self) -> Seq<char> {
        match self {
            WebDriverBiDiSessionEndCommandError::CommandIdOutOfRange { .. } => "WebDriver BiDi session.end command id is outside the js-uint range"@,
            WebDriverBiDiSessionEndCommandError::Correlation { .. } => "WebDriver BiDi session.end command correlation was rejected"@,
            WebDriverBiDiSessionEndCommandError::FrameWrite { .. } => "WebDriver BiDi session.end command frame write failed"@,
        }
    }

    /// Stable operator-facing description.
    pub fn to_string(&self) -> (text: String)
        ensures
            text@ == self.description(),
    {
        match self {
            WebDriverBiDiSessionEndCommandError::CommandIdOutOfRange { .. } => "WebDriver BiDi session.end command id is outside the js-uint range".to_owned(),
            WebDriverBiDiSessionEndCommandError::Correlation { .. } => "WebDriver BiDi session.end command correlation was rejected".to_owned(),
            WebDriverBiDiSessionEndCommandError::FrameWrite { .. } => "WebDriver BiDi session.end command frame write failed".to_owned(),
        }
    }

    /// The wrapped correlation or frame failure, when this error wraps one.
    pub fn source(&self) -> (source: Option<WebDriverBiDiErrorSource<'_>>)
        ensures
            match self {
                WebDriverBiDiSessionEndCommandError::CommandIdOutOfRange { .. } => source is None,
                WebDriverBiDiSessionEndCommandError::Correlation { source: e } => source == Some(WebDriverBiDiErrorSource::Correlation(e)),
                WebDriverBiDiSessionEndCommandError::FrameWrite { source: e } => source == Some(WebDriverBiDiErrorSource::Frame(e)),
            },
    {
        match self {
            WebDriverBiDiSessionEndCommandError::CommandIdOutOfRange { .. } => None,
            WebDriverBiDiSessionEndCommandError::Correlation { source } => Some(WebDriverBiDiErrorSource::Correlation(source)),
            WebDriverBiDiSessionEndCommandError::FrameWrite { source } => Some(WebDriverBiDiErrorSource::Frame(source)),
        }
    }
}

/// The exact text of the `session.end` command with identifier `command_id`.
pub open spec fn session_end_command_text(command_id: u64) -> Seq<char> {
    "{\"id\":"@ + decode_utf8(decimal_digits(command_id as nat)) + ",\"method\":\"session.end\",\"params\":{}}"@
}

/// One bounded WebDriver BiDi `session.end` command carrying only a `js-uint` correlation identifier
/// and the empty parameter map.
#[derive(Clone, Copy, Debug, PartialEq, Eq)]
pub struct WebDriverBiDiSessionEndCommand {
    command_id: u64,
}

impl View for WebDriverBiDiSessionEndCommand {
    type V = u64;

    closed spec fn view(&self) -> u64 {
        self.command_id
    }
}

impl WebDriverBiDiSessionEndCommand {
    /// Every command identifier is within the `js-uint` range.
    #[verifier::type_invariant]
    pub open spec fn in_range(&self) -> bool {
        self@ <= MAX_WEBDRIVER_BIDI_JS_UINT
    }

    /// Construct one `session.end` command with a JavaScript-safe correlation identifier.
    pub fn new(command_id: u64) -> (result: Result<Self, WebDriverBiDiSessionEndCommandError>)
        ensures
            command_id <= MAX_WEBDRIVER_BIDI_JS_UINT ==> (result matches Ok(c) && c@ == command_id),
            command_id > MAX_WEBDRIVER_BIDI_JS_UINT ==> (result matches Err(WebDriverBiDiSessionEndCommandError::CommandIdOutOfRange {
                command_id: rejected,
                maximum_command_id,
            }) && rejected == command_id && maximum_command_id == MAX_WEBDRIVER_BIDI_JS_UINT),
    {
        if command_id > MAX_WEBDRIVER_BIDI_JS_UINT {
            return Err(WebDriverBiDiSessionEndCommandError::CommandIdOutOfRange {
                command_id,
                maximum_command_id: MAX_WEBDRIVER_BIDI_JS_UINT,
            });
        }
        Ok(WebDriverBiDiSessionEndCommand { command_id })
    }

    /// Return the exact local correlation identifier serialized for this command.
    pub fn command_id(&self) -> (id: u64)
        ensures
            id == self@,
    {
        self.command_id
    }

    /// The exact JSON text of this command.
    pub fn serialized(&self) -> (text: String)
        ensures
            text@ == session_end_command_text(self@),
    {
        let mut text = "{\"id\":".to_owned();
        let digits = decimal_text(self.command_id);
        text.append(digits.as_str());
        text.append(",\"method\":\"session.end\",\"params\":{}}");
        text
    }

    /// Register this command, then hand back the exact text to write as one text frame.
    ///
    /// The command is registered as `session.end` on the connection `connection_generation` that will
    /// carry it, so only a response read on that same connection can acknowledge it. Registration
    /// happens before anything is written, so a refused registration writes nothing.
    pub fn send(self, correlation: &mut WebDriverBiDiCommandCorrelation, connection_generation: WebDriverBiDiConnectionGeneration) -> (result: Result<String, WebDriverBiDiSessionEndCommandError>)
        ensures
            registration_outcome(old(correlation)@, final(correlation)@, self@, (Some(WebDriverBiDiCommandKind::SessionEnd), Some(connection_generation@)), match result {
                Ok(_) => Ok(()),
                Err(WebDriverBiDiSessionEndCommandError::Correlation { source }) => Err(source),
                Err(_) => Err(WebDriverBiDiCommandCorrelationError::CommandIdOutOfRange),
            }),
            result is Err ==> result matches Err(WebDriverBiDiSessionEndCommandError::Correlation { .. }),
            result matches Ok(text) ==> text@ == session_end_command_text(self@),
    {
        match correlation.register_command_for_connection(self.command_id, WebDriverBiDiCommandKind::SessionEnd, connection_generation) {
            Ok(()) => Ok(self.serialized()),
            Err(source) => Err(WebDriverBiDiSessionEndCommandError::Correlation { source }),
        }
    }
}

} // verus!
