//! The end-to-end time budget of one command/response exchange, and the decisions it governs.
//!
//! One caller-supplied budget covers every frame operation of an exchange. Elapsed time is
//! subtracted before each operation and the budget is never reset; each single frame operation is
//! further capped at the frame timeout ceiling.

use std::time::Duration;

use vstd::prelude::*;

use crate::frame_error::WebDriverBiDiWebSocketFrameError;

verus! {

/// Largest timeout of one WebSocket frame operation, in whole seconds.
pub const MAX_WEBSOCKET_FRAME_TIMEOUT_SECS: u64 = 5;

/// Maximum number of Ping/Pong control frames one exchange will process.
pub const MAX_WEBDRIVER_BIDI_CONTROL_FRAMES_PER_EXCHANGE: usize = 64;

/// Maximum number of data fragments accepted for one response message.
pub const MAX_WEBDRIVER_BIDI_RESPONSE_FRAGMENTS_PER_EXCHANGE: usize = 256;

/// The length of a `Duration` in nanoseconds: what `Duration::as_nanos` returns.
pub uninterp spec fn duration_nanos(duration: Duration) -> nat;

/// `Duration::as_nanos`: the total number of nanoseconds the duration holds.
#[verifier::external_body]
pub(crate) fn duration_as_nanos(duration: Duration) -> (nanos: u128)
    ensures
        nanos == duration_nanos(duration),
{
    duration.as_nanos()
}

/// `Duration::checked_sub`: `minuend - subtrahend`, or `None` when that would be negative.
#[verifier::external_body]
fn duration_checked_sub(minuend: Duration, subtrahend: Duration) -> (difference: Option<Duration>)
    ensures
        difference is Some <==> duration_nanos(minuend) >= duration_nanos(subtrahend),
        difference matches Some(d) ==> duration_nanos(d) == duration_nanos(minuend) - duration_nanos(subtrahend),
{
    minuend.checked_sub(subtrahend)
}

/// `Duration::from_secs`: the duration of `secs` whole seconds.
#[verifier::external_body]
pub(crate) fn duration_from_secs(secs: u64) -> (duration: Duration)
    ensures
        duration_nanos(duration) == secs * 1_000_000_000,
{
    Duration::from_secs(secs)
}

/// The frame-operation timeout ceiling, [`MAX_WEBSOCKET_FRAME_TIMEOUT_SECS`] seconds, in
/// nanoseconds.
pub open spec fn max_frame_timeout_nanos() -> nat {
    MAX_WEBSOCKET_FRAME_TIMEOUT_SECS as nat * 1_000_000_000
}

/// The timeout ceiling of one WebSocket frame operation.
pub fn max_websocket_frame_timeout() -> (ceiling: Duration)
    ensures
        duration_nanos(ceiling) == max_frame_timeout_nanos(),
{
    duration_from_secs(MAX_WEBSOCKET_FRAME_TIMEOUT_SECS)
}

/// A four-byte RFC 6455 client masking key.
#[derive(Clone, Copy, Debug, PartialEq, Eq)]
pub struct WebDriverBiDiWebSocketMaskKey {
    bytes: [u8; 4],
}

impl WebDriverBiDiWebSocketMaskKey {
    /// The key bytes.
    pub closed spec fn key(&self) -> Seq<u8> {
        self.bytes@
    }

    /// A masking key made of exactly `bytes`.
    pub fn new(bytes: [u8; 4]) -> (key: Self)
        ensures
            key.key() == bytes@,
    {
        WebDriverBiDiWebSocketMaskKey { bytes }
    }

    /// The key bytes.
    pub fn bytes(&self) -> (bytes: [u8; 4])
        ensures
            bytes@ == self.key(),
    {
        self.bytes
    }
}

/// Fail-closed failures of one bounded command/response exchange.
#[derive(Debug)]
pub enum WebDriverBiDiLocateNodesExchangeError {
    /// Bounded WebSocket frame write or read failed.
    Frame(WebDriverBiDiWebSocketFrameError),
    /// The end-to-end exchange budget was exhausted before the next operation could proceed.
    ExchangeDeadlineExceeded {
        /// Original caller-supplied budget for the complete exchange.
        exchange_timeout: Duration,
    },
    /// The peer exceeded the local budget for interleaved Ping/Pong frames.
    ControlFrameLimitExceeded {
        /// Maximum number of control frames admitted for one exchange.
        maximum_control_frames: usize,
    },
    /// The peer exceeded the local budget for response-message data fragments.
    ResponseFragmentLimitExceeded {
        /// Maximum number of response-message data fragments admitted for one exchange.
        maximum_fragments: usize,
    },
    /// A server Ping required a fresh client masking key, but the caller supplied none.
    PongMaskingKeyUnavailable,
    /// A caller supplied the same Pong masking key as the immediately preceding client frame.
    PongMaskingKeyReused,
    /// The returned frame could not continue the one admissible text response message.
    UnexpectedResponseFrame {
        /// Whether the returned frame carried the RFC 6455 FIN bit.
        fin: bool,
        /// Exact returned RFC 6455 opcode.
        opcode: u8,
    },
    /// The assembled response message would exceed the response-document byte budget.
    ResponseDocumentTooLarge {
        /// Largest response document admitted, in bytes.
        maximum_bytes: usize,
    },
}

impl WebDriverBiDiLocateNodesExchangeError {
    /// The wrapped frame failure, when this error wraps one.
    pub fn source(&self) -> (source: Option<&WebDriverBiDiWebSocketFrameError>)
        ensures
            match self {
                WebDriverBiDiLocateNodesExchangeError::Frame(e) => source == Some(e),
                _ => source is None,
            },
    {
        match self {
            WebDriverBiDiLocateNodesExchangeError::Frame(e) => Some(e),
            _ => None,
        }
    }
}

/// The budget left for the next operation, in nanoseconds, when any is left.
pub open spec fn remaining_budget_nanos(exchange_timeout: Duration, elapsed: Duration) -> Option<int> {
    if duration_nanos(exchange_timeout) > duration_nanos(elapsed) {
        Some(duration_nanos(exchange_timeout) - duration_nanos(elapsed))
    } else {
        None
    }
}

/// The budget left after `elapsed` of `exchange_timeout`. An exhausted budget, including one with
/// exactly nothing left, refuses the next operation.
pub fn remaining_exchange_budget(exchange_timeout: Duration, elapsed: Duration) -> (remaining: Result<
    Duration,
    WebDriverBiDiLocateNodesExchangeError,
>)
    ensures
        match remaining_budget_nanos(exchange_timeout, elapsed) {
            Some(left) => remaining matches Ok(d) && duration_nanos(d) == left,
            None => remaining matches Err(e) && e == (WebDriverBiDiLocateNodesExchangeError::ExchangeDeadlineExceeded {
                exchange_timeout,
            }),
        },
{
    match duration_checked_sub(exchange_timeout, elapsed) {
        Some(remaining) => {
            if duration_as_nanos(remaining) != 0 {
                Ok(remaining)
            } else {
                Err(WebDriverBiDiLocateNodesExchangeError::ExchangeDeadlineExceeded { exchange_timeout })
            }
        },
        None => Err(WebDriverBiDiLocateNodesExchangeError::ExchangeDeadlineExceeded { exchange_timeout }),
    }
}

/// The timeout of the next single frame operation: the remaining exchange budget, capped at the
/// frame timeout ceiling.
pub fn remaining_frame_operation_budget(exchange_timeout: Duration, elapsed: Duration) -> (remaining: Result<
    Duration,
    WebDriverBiDiLocateNodesExchangeError,
>)
    ensures
        match remaining_budget_nanos(exchange_timeout, elapsed) {
            Some(left) => remaining matches Ok(d) && duration_nanos(d) == (if left < max_frame_timeout_nanos() {
                left
            } else {
                max_frame_timeout_nanos() as int
            }),
            None => remaining matches Err(e) && e == (WebDriverBiDiLocateNodesExchangeError::ExchangeDeadlineExceeded {
                exchange_timeout,
            }),
        },
{
    match remaining_exchange_budget(exchange_timeout, elapsed) {
        Ok(remaining) => {
            let ceiling = max_websocket_frame_timeout();
            if duration_as_nanos(ceiling) < duration_as_nanos(remaining) {
                Ok(ceiling)
            } else {
                Ok(remaining)
            }
        },
        Err(e) => Err(e),
    }
}

/// Take the Pong masking key that the caller's key source drew, failing closed when it had none.
pub fn pong_masking_key(drawn: Option<WebDriverBiDiWebSocketMaskKey>) -> (key: Result<
    WebDriverBiDiWebSocketMaskKey,
    WebDriverBiDiLocateNodesExchangeError,
>)
    ensures
        match drawn {
            Some(k) => key == Ok::<WebDriverBiDiWebSocketMaskKey, WebDriverBiDiLocateNodesExchangeError>(k),
            None => key matches Err(e) && e is PongMaskingKeyUnavailable,
        },
{
    match drawn {
        Some(k) => Ok(k),
        None => Err(WebDriverBiDiLocateNodesExchangeError::PongMaskingKeyUnavailable),
    }
}

/// Draw one Pong masking key from the caller's key source, failing closed when it has none.
pub fn next_pong_masking_key<F: Fn() -> Option<WebDriverBiDiWebSocketMaskKey>>(next_key: &F) -> (key: Result<
    WebDriverBiDiWebSocketMaskKey,
    WebDriverBiDiLocateNodesExchangeError,
>)
    requires
        next_key.requires(()),
    ensures
        exists|drawn: Option<WebDriverBiDiWebSocketMaskKey>| {
            &&& next_key.ensures((), drawn)
            &&& match drawn {
                Some(k) => key == Ok::<WebDriverBiDiWebSocketMaskKey, WebDriverBiDiLocateNodesExchangeError>(k),
                None => key matches Err(e) && e is PongMaskingKeyUnavailable,
            }
        },
{
    let drawn = next_key();
    let key = pong_masking_key(drawn);
    assert(next_key.ensures((), drawn));
    key
}

/// Draw one Pong masking key only while exchange budget is left: an exhausted budget refuses the
/// draw before the key source is asked.
pub fn next_pong_masking_key_before_deadline<F: Fn() -> Option<WebDriverBiDiWebSocketMaskKey>>(
    next_key: &F,
    exchange_timeout: Duration,
    elapsed: Duration,
) -> (key: Result<WebDriverBiDiWebSocketMaskKey, WebDriverBiDiLocateNodesExchangeError>)
    requires
        next_key.requires(()),
    ensures
        remaining_budget_nanos(exchange_timeout, elapsed) is None ==> (key matches Err(e) && e == (
        WebDriverBiDiLocateNodesExchangeError::ExchangeDeadlineExceeded { exchange_timeout })),
        remaining_budget_nanos(exchange_timeout, elapsed) is Some ==> exists|drawn: Option<WebDriverBiDiWebSocketMaskKey>| {
            &&& next_key.ensures((), drawn)
            &&& match drawn {
                Some(k) => key == Ok::<WebDriverBiDiWebSocketMaskKey, WebDriverBiDiLocateNodesExchangeError>(k),
                None => key matches Err(e) && e is PongMaskingKeyUnavailable,
            }
        },
{
    match remaining_frame_operation_budget(exchange_timeout, elapsed) {
        Ok(_) => next_pong_masking_key(next_key),
        Err(e) => Err(e),
    }
}

/// Run one frame read with the timeout that the exchange budget leaves for it; an exhausted budget
/// refuses the read before any I/O.
pub fn read_frame_with_exchange_budget<T, F: FnOnce(Duration) -> Result<T, WebDriverBiDiWebSocketFrameError>>(
    exchange_timeout: Duration,
    elapsed: Duration,
    read_frame: F,
) -> (read: Result<T, WebDriverBiDiLocateNodesExchangeError>)
    requires
        forall|timeout: Duration| read_frame.requires((timeout,)),
    ensures
        remaining_budget_nanos(exchange_timeout, elapsed) is None ==> (read matches Err(e) && e == (
        WebDriverBiDiLocateNodesExchangeError::ExchangeDeadlineExceeded { exchange_timeout })),
        remaining_budget_nanos(exchange_timeout, elapsed) is Some ==> exists|timeout: Duration, frame: Result<
            T,
            WebDriverBiDiWebSocketFrameError,
        >| {
            &&& duration_nanos(timeout) == {
                let left = remaining_budget_nanos(exchange_timeout, elapsed).unwrap();
                if left < max_frame_timeout_nanos() {
                    left
                } else {
                    max_frame_timeout_nanos() as int
                }
            }
            &&& read_frame.ensures((timeout,), frame)
            &&& match frame {
                Ok(value) => read == Ok::<T, WebDriverBiDiLocateNodesExchangeError>(value),
                Err(e) => read matches Err(r) && r == WebDriverBiDiLocateNodesExchangeError::Frame(e),
            }
        },
{
    let remaining_timeout = match remaining_frame_operation_budget(exchange_timeout, elapsed) {
        Ok(d) => d,
        Err(e) => return Err(e),
    };
    match read_frame(remaining_timeout) {
        Ok(value) => Ok(value),
        Err(e) => Err(WebDriverBiDiLocateNodesExchangeError::Frame(e)),
    }
}

/// Count one more response-message data fragment, refusing the fragment past the per-exchange
/// budget.
pub fn admit_response_fragment(response_fragment_count: &mut usize) -> (admitted: Result<
    (),
    WebDriverBiDiLocateNodesExchangeError,
>)
    requires
        *old(response_fragment_count) < usize::MAX,
    ensures
        *old(response_fragment_count) != MAX_WEBDRIVER_BIDI_RESPONSE_FRAGMENTS_PER_EXCHANGE ==> (admitted is Ok
            && *final(response_fragment_count) == *old(response_fragment_count) + 1),
        *old(response_fragment_count) == MAX_WEBDRIVER_BIDI_RESPONSE_FRAGMENTS_PER_EXCHANGE ==> (
        *final(response_fragment_count) == *old(response_fragment_count) && (admitted matches Err(e) && e == (
        WebDriverBiDiLocateNodesExchangeError::ResponseFragmentLimitExceeded {
            maximum_fragments: MAX_WEBDRIVER_BIDI_RESPONSE_FRAGMENTS_PER_EXCHANGE,
        }))),
{
    if *response_fragment_count == MAX_WEBDRIVER_BIDI_RESPONSE_FRAGMENTS_PER_EXCHANGE {
        return Err(
            WebDriverBiDiLocateNodesExchangeError::ResponseFragmentLimitExceeded {
                maximum_fragments: MAX_WEBDRIVER_BIDI_RESPONSE_FRAGMENTS_PER_EXCHANGE,
            },
        );
    }
    *response_fragment_count += 1;
    Ok(())
}

/// The exchange budget is never reset: more elapsed time never leaves more budget, and once the
/// budget is exhausted it stays exhausted.
pub proof fn lemma_exchange_budget_never_grows(exchange_timeout: Duration, earlier: Duration, later: Duration)
    requires
        duration_nanos(earlier) <= duration_nanos(later),
    ensures
        remaining_budget_nanos(exchange_timeout, later) matches Some(left_later) ==> (remaining_budget_nanos(
            exchange_timeout,
            earlier,
        ) matches Some(left_earlier) && left_later <= left_earlier),
        remaining_budget_nanos(exchange_timeout, earlier) is None ==> remaining_budget_nanos(
            exchange_timeout,
            later,
        ) is None,
{
}

} // verus!
