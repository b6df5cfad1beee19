//! Failures of one bounded WebSocket frame operation, as reported by the transport owner.

use std::time::Duration;

use vstd::prelude::*;

verus! {

/// `std::io::Error`, carried as the cause of a failed frame write.
#[verifier::external_type_specification]
#[verifier::external_body]
pub struct ExIoError(std::io::Error);

/// Fail-closed failures of one bounded WebSocket frame operation.
#[derive(Debug)]
pub enum WebDriverBiDiWebSocketFrameError {
    /// Writing a frame failed after `bytes_written` bytes reached the transport.
    FrameWriteFailed {
        /// Bytes of the frame already written when the write failed.
        bytes_written: usize,
        /// The transport failure.
        source: std::io::Error,
    },
    /// A frame violated the framing rules before any I/O.
    MalformedFrame {
        /// Stable non-sensitive reason.
        reason: &'static str,
    },
    /// A frame timeout outside the admitted range was requested.
    InvalidFrameTimeout {
        /// The requested timeout.
        frame_timeout: Duration,
        /// The largest admitted timeout.
        maximum_timeout: Duration,
    },
}

impl WebDriverBiDiWebSocketFrameError {
    /// Stable operator-facing description.
    pub open spec fn description(&self) -> Seq<char> {
        match self {
            WebDriverBiDiWebSocketFrameError::FrameWriteFailed { .. } => "WebDriver BiDi WebSocket frame write failed"@,
            WebDriverBiDiWebSocketFrameError::MalformedFrame { .. } => "WebDriver BiDi WebSocket frame is malformed"@,
            WebDriverBiDiWebSocketFrameError::InvalidFrameTimeout { .. } => "WebDriver BiDi WebSocket frame timeout is outside the admitted range"@,
        }
    }

    /// Stable operator-facing description.
    pub fn to_string(&self) -> (text: String)
        ensures
            text@ == self.description(),
    {
        match self {
            WebDriverBiDiWebSocketFrameError::FrameWriteFailed { .. } => "WebDriver BiDi WebSocket frame write failed".to_owned(),
            WebDriverBiDiWebSocketFrameError::MalformedFrame { .. } => "WebDriver BiDi WebSocket frame is malformed".to_owned(),
            WebDriverBiDiWebSocketFrameError::InvalidFrameTimeout { .. } => "WebDriver BiDi WebSocket frame timeout is outside the admitted range".to_owned(),
        }
    }

    /// The transport failure behind a failed write, if this is one.
    pub fn source(&self) -> (source: Option<&std::io::Error>)
        ensures
            source is Some <==> self is FrameWriteFailed,
    {
        match self {
            WebDriverBiDiWebSocketFrameError::FrameWriteFailed { source, .. } => Some(source),
            _ => None,
        }
    }
}

} // verus!
