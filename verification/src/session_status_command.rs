//! The typed WebDriver BiDi `session.status` command.

use vstd::prelude::*;
use vstd::string::StringExecFns;
use vstd::utf8::*;

use crate::command_correlation::{
    registration_outcome, WebDriverBiDiCommandCorrelation, WebDriverBiDiCommandCorrelationError,
    
};
use crate::error_source::WebDriverBiDiErrorSource;
use crate::frame_error::WebDriverBiDiWebSocketFrameError;
use crate::json_envelope::MAX_WEBDRIVER_BIDI_JS_UINT;
use crate::json_text::{decimal_digits, decimal_text};

verus! {

/// Fail-closed errors while constructing or sending one typed `session.status` command.
#[derive(Debug)]
pub enum WebDriverBiDiSessionStatusCommandError {
    /// The requested command identifier is outside WebDriver BiDi's `js-uint` range.
    CommandIdOutOfRange {
        /// Rejected command identifier.
        command_id: u64,
        /// Largest JavaScript-safe identifier admitted by this boundary.
        maximum_command_id: u64,
    },
    /// The bounded local correlation registry rejected the command before any frame was written.
    Correlation {
        /// Exact typed correlation failure.
        source: WebDriverBiDiCommandCorrelationError,
    },
    /// Writing the already-registered command frame failed and the transport is not reusable.
    FrameWrite {
        /// Exact typed bounded WebSocket frame-write failure.
        source: WebDriverBiDiWebSocketFrameError,
    },
}

impl WebDriverBiDiSessionStatusCommandError {
    /// Stable operator-facing description.
    pub open spec fn description(&self) -> Seq<char> {
        match self {
            WebDriverBiDiSessionStatusCommandError::CommandIdOutOfRange { .. } => "WebDriver BiDi session.status command id is outside the js-uint range"@,
            WebDriverBiDiSessionStatusCommandError::Correlation { .. } => "WebDriver BiDi session.status command correlation was rejected"@,
            WebDriverBiDiSessionStatusCommandError::FrameWrite { .. } => "WebDriver BiDi session.status command frame write failed"@,
        }
    }

    /// Stable operator-facing description.
    pub fn to_string(&self) -> (text: String)
        ensures
            text@ == self.description(),
    {
        match self {
            WebDriverBiDiSessionStatusCommandError::CommandIdOutOfRange { .. } => "WebDriver BiDi session.status command id is outside the js-uint range".to_owned(),
            WebDriverBiDiSessionStatusCommandError::Correlation { .. } => "WebDriver BiDi session.status command correlation was rejected".to_owned(),
            WebDriverBiDiSessionStatusCommandError::FrameWrite { .. } => "WebDriver BiDi session.status command frame write failed".to_owned(),
        }
    }

    /// The wrapped correlation or frame failure, when this error wraps one.
    pub fn source(&self) -> (source: Option<WebDriverBiDiErrorSource<'_>>)
        ensures
            match self {
                WebDriverBiDiSessionStatusCommandError::CommandIdOutOfRange { .. } => source is None,
                WebDriverBiDiSessionStatusCommandError::Correlation { source: e } => source == Some(WebDriverBiDiErrorSource::Correlation(e)),
                WebDriverBiDiSessionStatusCommandError::FrameWrite { source: e } => source == Some(WebDriverBiDiErrorSource::Frame(e)),
            },
    {
        match self {
            WebDriverBiDiSessionStatusCommandError::CommandIdOutOfRange { .. } => None,
            WebDriverBiDiSessionStatusCommandError::Correlation { source } => Some(WebDriverBiDiErrorSource::Correlation(source)),
            WebDriverBiDiSessionStatusCommandError::FrameWrite { source } => Some(WebDriverBiDiErrorSource::Frame(source)),
        }
    }
}

/// The exact text of the `session.status` command with identifier `command_id`.
pub open spec fn session_status_command_text(command_id: u64) -> Seq<char> {
    "{\"id\":"@ + decode_utf8(decimal_digits(command_id as nat)) + ",\"method\":\"session.status\",\"params\":{}}"@
}

/// One bounded WebDriver BiDi `session.status` command carrying only a `js-uint` correlation identifier
/// and the empty parameter map.
#[derive(Clone, Copy, Debug, PartialEq, Eq)]
pub struct WebDriverBiDiSessionStatusCommand {
    command_id: u64,
}

impl View for WebDriverBiDiSessionStatusCommand {
    type V = u64;

    closed spec fn view(&self) -> u64 {
        self.command_id
    }
}

impl WebDriverBiDiSessionStatusCommand {
    /// Every command identifier is within the `js-uint` range.
    #[verifier::type_invariant]
    pub open spec fn in_range(&self) -> bool {
        self@ <= MAX_WEBDRIVER_BIDI_JS_UINT
    }

    /// Construct one `session.status` command with a JavaScript-safe correlation identifier.
    pub fn new(command_id: u64) -> (result: Result<Self, WebDriverBiDiSessionStatusCommandError>)
        ensures
            command_id <= MAX_WEBDRIVER_BIDI_JS_UINT ==> (result matches Ok(c) && c@ == command_id),
            command_id > MAX_WEBDRIVER_BIDI_JS_UINT ==> (result matches Err(WebDriverBiDiSessionStatusCommandError::CommandIdOutOfRange {
                command_id: rejected,
                maximum_command_id,
            }) && rejected == command_id && maximum_command_id == MAX_WEBDRIVER_BIDI_JS_UINT),
    {
        if command_id > MAX_WEBDRIVER_BIDI_JS_UINT {
            return Err(WebDriverBiDiSessionStatusCommandError::CommandIdOutOfRange {
                command_id,
                maximum_command_id: MAX_WEBDRIVER_BIDI_JS_UINT,
            });
        }
        Ok(WebDriverBiDiSessionStatusCommand { command_id })
    }

    /// Return the exact local correlation identifier serialized for this command.
    pub fn command_id(&self) -> (id: u64)
        ensures
            id == self@,
    {
        self.command_id
    }

    /// The exact JSON text of this command.
    pub fn serialized(&self) -> (text: String)
        ensures
            text@ == session_status_command_text(self@),
    {
        let mut text = "{\"id\":".to_owned();
        let digits = decimal_text(self.command_id);
        text.append(digits.as_str());
        text.append(",\"method\":\"session.status\",\"params\":{}}");
        text
    }

    /// Register this command, then hand back the exact text to write as one text frame.
    ///
    /// Registration happens before anything is written, so a refused registration writes nothing. Once
    /// registered, the identifier stays outstanding until a correlated response or an explicit
    /// retirement, even if the frame write later fails.
    pub fn send(self, correlation: &mut WebDriverBiDiCommandCorrelation) -> (result: Result<String, WebDriverBiDiSessionStatusCommandError>)
        ensures
            registration_outcome(old(correlation)@, final(correlation)@, self@, (None, None), match result {
                Ok(_) => Ok(()),
                Err(WebDriverBiDiSessionStatusCommandError::Correlation { source }) => Err(source),
                Err(_) => Err(WebDriverBiDiCommandCorrelationError::CommandIdOutOfRange),
            }),
            result is Err ==> result matches Err(WebDriverBiDiSessionStatusCommandError::Correlation { .. }),
            result matches Ok(text) ==> text@ == session_status_command_text(self@),
    {
        match correlation.register_command(self.command_id) {
            Ok(()) => Ok(self.serialized()),
            Err(source) => Err(WebDriverBiDiSessionStatusCommandError::Correlation { source }),
        }
    }
}

} // verus!
