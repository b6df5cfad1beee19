//! Retry decisions of the bounded direct-connection loop.
//!
//! A connection plan allows a fixed number of attempts. Only transient failures are retried, and
//! only while attempts remain; every other failure ends the loop at once, reporting how many
//! attempts were made. Before any attempt, a plan is validated: the port, the per-attempt timeout
//! and the attempt count; after a connect succeeds, the observed peer must be the requested socket.

use std::time::Duration;

use vstd::prelude::*;

use vstd::utf8::*;

use crate::exchange_budget::{duration_as_nanos, duration_from_secs, duration_nanos};
use crate::json_text::{decimal_digits, decimal_text};

verus! {

/// The largest number of direct TCP connection attempts in one plan.
pub const MAX_CONNECTION_ATTEMPTS: u8 = 4;

/// The kind of failure one connect attempt reported, as far as the retry decision tells them
/// apart.
#[derive(Clone, Copy, Debug, PartialEq, Eq, Structural)]
pub enum ConnectErrorKind {
    /// The attempt timed out.
    TimedOut,
    /// The peer refused the connection.
    ConnectionRefused,
    /// The peer reset the connection.
    ConnectionReset,
    /// The connection was aborted.
    ConnectionAborted,
    /// The attempt was interrupted.
    Interrupted,
    /// The attempt lacked permission.
    PermissionDenied,
    /// The attempt had an invalid parameter.
    InvalidInput,
    /// The requested address was not available.
    AddrNotAvailable,
    /// Any other failure.
    Other,
}

/// Transient failures, worth another attempt.
pub open spec fn retryable_kind(kind: ConnectErrorKind) -> bool {
    ||| kind == ConnectErrorKind::TimedOut
    ||| kind == ConnectErrorKind::ConnectionRefused
    ||| kind == ConnectErrorKind::ConnectionReset
    ||| kind == ConnectErrorKind::ConnectionAborted
    ||| kind == ConnectErrorKind::Interrupted
}

/// Exactly five failure kinds are transient: a timeout, a refused, reset or aborted connection, and
/// an interrupted attempt. Every other kind (permission denied, invalid input, address not
/// available, any other failure) is not, and ends the connection loop at once.
pub proof fn lemma_only_transient_failures_are_retryable(kind: ConnectErrorKind)
    ensures
        retryable_kind(kind) <==> (kind == ConnectErrorKind::TimedOut || kind
            == ConnectErrorKind::ConnectionRefused || kind == ConnectErrorKind::ConnectionReset || kind
            == ConnectErrorKind::ConnectionAborted || kind == ConnectErrorKind::Interrupted),
        !retryable_kind(ConnectErrorKind::PermissionDenied),
        !retryable_kind(ConnectErrorKind::InvalidInput),
        !retryable_kind(ConnectErrorKind::AddrNotAvailable),
        !retryable_kind(ConnectErrorKind::Other),
{
}

/// Whether a connect failure of this kind is transient and may be retried.
pub fn is_retryable_connect_error(kind: ConnectErrorKind) -> (retryable: bool)
    ensures
        retryable == retryable_kind(kind),
        retryable <==> (kind == ConnectErrorKind::TimedOut || kind == ConnectErrorKind::ConnectionRefused
            || kind == ConnectErrorKind::ConnectionReset || kind == ConnectErrorKind::ConnectionAborted
            || kind == ConnectErrorKind::Interrupted),
{
    match kind {
        ConnectErrorKind::TimedOut
        | ConnectErrorKind::ConnectionRefused
        | ConnectErrorKind::ConnectionReset
        | ConnectErrorKind::ConnectionAborted
        | ConnectErrorKind::Interrupted => true,
        _ => false,
    }
}

/// What the connection loop does after one failed attempt.
#[derive(Clone, Copy, Debug, PartialEq, Eq, Structural)]
pub enum ConnectAttemptDecision {
    /// Make attempt number `next_attempt`.
    Retry {
        /// The number of the next attempt.
        next_attempt: u8,
    },
    /// Stop: the last attempt timed out.
    TimedOut {
        /// How many attempts were made.
        attempt_count: u8,
    },
    /// Stop: the last attempt failed otherwise.
    Failed {
        /// How many attempts were made.
        attempt_count: u8,
    },
}

/// Decide what follows failed attempt number `attempt_number` of a plan allowing
/// `maximum_attempts`: retry a transient failure while attempts remain; otherwise stop, reporting
/// a timeout when the last attempt timed out.
pub fn decide_after_connect_failure(
    attempt_number: u8,
    maximum_attempts: u8,
    kind: ConnectErrorKind,
) -> (decision: ConnectAttemptDecision)
    requires
        1 <= attempt_number <= maximum_attempts <= MAX_CONNECTION_ATTEMPTS,
    ensures
        retryable_kind(kind) && attempt_number < maximum_attempts ==> decision
            == (ConnectAttemptDecision::Retry { next_attempt: (attempt_number + 1) as u8 }),
        !(retryable_kind(kind) && attempt_number < maximum_attempts) && kind == ConnectErrorKind::TimedOut
            ==> decision == (ConnectAttemptDecision::TimedOut { attempt_count: attempt_number }),
        !(retryable_kind(kind) && attempt_number < maximum_attempts) && kind != ConnectErrorKind::TimedOut
            ==> decision == (ConnectAttemptDecision::Failed { attempt_count: attempt_number }),
        decision matches ConnectAttemptDecision::Retry { next_attempt } ==> attempt_number < next_attempt
            <= maximum_attempts,
        kind == ConnectErrorKind::PermissionDenied || kind == ConnectErrorKind::InvalidInput || kind
            == ConnectErrorKind::AddrNotAvailable || kind == ConnectErrorKind::Other ==> decision
            == (ConnectAttemptDecision::Failed { attempt_count: attempt_number }),
{
    if is_retryable_connect_error(kind) && attempt_number < maximum_attempts {
        ConnectAttemptDecision::Retry { next_attempt: attempt_number + 1 }
    } else if kind == ConnectErrorKind::TimedOut {
        ConnectAttemptDecision::TimedOut { attempt_count: attempt_number }
    } else {
        ConnectAttemptDecision::Failed { attempt_count: attempt_number }
    }
}

/// Whether `maximum_attempts` is an admissible attempt count for one plan: at least one and at
/// most [`MAX_CONNECTION_ATTEMPTS`].
pub fn attempt_count_is_valid(maximum_attempts: u8) -> (valid: bool)
    ensures
        valid == (1 <= maximum_attempts <= MAX_CONNECTION_ATTEMPTS),
{
    !(maximum_attempts == 0 || maximum_attempts > MAX_CONNECTION_ATTEMPTS)
}


/// The largest timeout accepted for one direct TCP connection attempt, in whole seconds.
pub const MAX_CONNECT_TIMEOUT_SECS: u64 = 30;

/// [`MAX_CONNECT_TIMEOUT_SECS`] in nanoseconds.
pub open spec fn max_connect_timeout_nanos() -> nat {
    MAX_CONNECT_TIMEOUT_SECS as nat * 1_000_000_000
}

/// The largest timeout accepted for one direct TCP connection attempt.
pub fn max_connect_timeout() -> (ceiling: Duration)
    ensures
        duration_nanos(ceiling) == max_connect_timeout_nanos(),
{
    duration_from_secs(MAX_CONNECT_TIMEOUT_SECS)
}

/// One socket address: an IPv4 address (its 32 bits, most significant first) and port, or an IPv6
/// address (its 128 bits) with port, flow information and scope identifier.
#[derive(Clone, Copy, Debug, PartialEq, Eq, Structural)]
pub enum SocketAddress {
    /// An IPv4 socket address.
    V4 {
        /// The address bits.
        address: u32,
        /// The port.
        port: u16,
    },
    /// An IPv6 socket address.
    V6 {
        /// The address bits.
        address: u128,
        /// The port.
        port: u16,
        /// The flow information.
        flowinfo: u32,
        /// The scope identifier.
        scope_id: u32,
    },
}

/// Why a connection plan was refused before any I/O.
#[derive(Clone, Copy, Debug)]
pub enum ConnectionPlanError {
    /// The requested destination port was zero.
    InvalidPort,
    /// The timeout was zero or exceeded [`MAX_CONNECT_TIMEOUT_SECS`] seconds.
    InvalidConnectTimeout {
        /// The rejected timeout.
        connect_timeout: Duration,
        /// The largest accepted timeout.
        maximum_timeout: Duration,
    },
    /// The requested attempt count was outside the accepted range.
    InvalidAttemptCount {
        /// The rejected attempt count.
        attempt_count: u8,
        /// The largest accepted attempt count.
        maximum_attempts: u8,
    },
    /// The requested port differs from the effective port of the approved origin.
    OriginPortMismatch {
        /// The port of the requested socket.
        requested_port: u16,
        /// The origin's effective port.
        expected_port: u16,
    },
}

/// The text `Debug` renders for a duration, such as `250ms` or `30s`.
pub uninterp spec fn duration_debug_text(duration: Duration) -> Seq<char>;

/// `Debug` of `Duration`: the duration written with its unit, such as `250ms` or `30s`.
#[verifier::external_body]
fn duration_debug(duration: Duration) -> (text: String)
    ensures
        text@ == duration_debug_text(duration),
{
    format!("{:?}", duration)
}

impl ConnectionPlanError {
    /// Stable operator-facing description.
    pub open spec fn description(&self) -> Seq<char> {
        match self {
            ConnectionPlanError::InvalidPort => "connection port must be within 1..=65535"@,
            ConnectionPlanError::InvalidConnectTimeout { connect_timeout, maximum_timeout } => "connect timeout "@
                + duration_debug_text(*connect_timeout) + " is outside 1ns..="@ + duration_debug_text(
                *maximum_timeout,
            ),
            ConnectionPlanError::InvalidAttemptCount { attempt_count, maximum_attempts } => "connection attempt count "@
                + decode_utf8(decimal_digits(*attempt_count as nat)) + " is outside 1..="@ + decode_utf8(
                decimal_digits(*maximum_attempts as nat),
            ),
            ConnectionPlanError::OriginPortMismatch { requested_port, expected_port } => "socket port "@
                + decode_utf8(decimal_digits(*requested_port as nat)) + " does not match canonical origin port "@
                + decode_utf8(decimal_digits(*expected_port as nat)),
        }
    }

    /// Stable operator-facing description.
    pub fn to_string(&self) -> (text: String)
        ensures
            text@ == self.description(),
    {
        match self {
            ConnectionPlanError::InvalidPort => "connection port must be within 1..=65535".to_owned(),
            ConnectionPlanError::InvalidConnectTimeout { connect_timeout, maximum_timeout } => {
                let mut text = "connect timeout ".to_owned();
                let given = duration_debug(*connect_timeout);
                text.append(given.as_str());
                text.append(" is outside 1ns..=");
                let ceiling = duration_debug(*maximum_timeout);
                text.append(ceiling.as_str());
                text
            },
            ConnectionPlanError::InvalidAttemptCount { attempt_count, maximum_attempts } => {
                let mut text = "connection attempt count ".to_owned();
                let given = decimal_text(*attempt_count as u64);
                text.append(given.as_str());
                text.append(" is outside 1..=");
                let ceiling = decimal_text(*maximum_attempts as u64);
                text.append(ceiling.as_str());
                text
            },
            ConnectionPlanError::OriginPortMismatch { requested_port, expected_port } => {
                let mut text = "socket port ".to_owned();
                let requested = decimal_text(*requested_port as u64);
                text.append(requested.as_str());
                text.append(" does not match canonical origin port ");
                let expected = decimal_text(*expected_port as u64);
                text.append(expected.as_str());
                text
            },
        }
    }

    /// No plan refusal wraps another error.
    pub fn source(&self) -> (source: Option<&ConnectionPlanError>)
        ensures
            source is None,
    {
        None
    }

    /// No plan refusal is tied to a transport attempt: every one comes before any I/O.
    pub fn attempt_count(&self) -> (count: Option<u8>)
        ensures
            count is None,
    {
        None
    }
}

/// The established stream's remote peer is not the requested socket: an integrity failure, never
/// retried.
#[derive(Clone, Copy, Debug, PartialEq, Eq, Structural)]
pub struct PeerMismatch {
    /// The requested socket.
    pub socket_address: SocketAddress,
    /// The peer the stream reported.
    pub observed_peer: SocketAddress,
    /// The one-based attempt that established the stream.
    pub attempt_number: u8,
}

/// Whether `connect_timeout` lies in the accepted range: more than zero and at most the ceiling.
pub open spec fn connect_timeout_is_valid(connect_timeout: Duration) -> bool {
    0 < duration_nanos(connect_timeout) <= max_connect_timeout_nanos()
}

/// What checking the per-attempt budget (`connect_timeout`, then `maximum_attempts`) gives: success
/// exactly when both are admissible, else the refusal of the first that is not.
pub open spec fn budget_outcome(
    connect_timeout: Duration,
    maximum_attempts: u8,
    result: Result<(), ConnectionPlanError>,
) -> bool {
    &&& result is Ok <==> connect_timeout_is_valid(connect_timeout) && 1 <= maximum_attempts
        <= MAX_CONNECTION_ATTEMPTS
    &&& !connect_timeout_is_valid(connect_timeout) ==> (result matches Err(
        ConnectionPlanError::InvalidConnectTimeout { connect_timeout: t, maximum_timeout: m },
    ) && t == connect_timeout && duration_nanos(m) == max_connect_timeout_nanos())
    &&& connect_timeout_is_valid(connect_timeout) && !(1 <= maximum_attempts <= MAX_CONNECTION_ATTEMPTS)
        ==> result == Err::<(), ConnectionPlanError>(
        ConnectionPlanError::InvalidAttemptCount {
            attempt_count: maximum_attempts,
            maximum_attempts: MAX_CONNECTION_ATTEMPTS,
        },
    )
}

/// Validate the per-attempt budget of one plan without I/O: a timeout of more than zero and at
/// most [`MAX_CONNECT_TIMEOUT_SECS`] seconds, and between one and [`MAX_CONNECTION_ATTEMPTS`]
/// attempts.
pub fn validate_connect_budget(connect_timeout: Duration, maximum_attempts: u8) -> (result: Result<
    (),
    ConnectionPlanError,
>)
    ensures
        budget_outcome(connect_timeout, maximum_attempts, result),
{
    let nanos = duration_as_nanos(connect_timeout);
    if nanos == 0 || nanos > (MAX_CONNECT_TIMEOUT_SECS as u128) * 1_000_000_000 {
        return Err(
            ConnectionPlanError::InvalidConnectTimeout {
                connect_timeout,
                maximum_timeout: max_connect_timeout(),
            },
        );
    }
    if !attempt_count_is_valid(maximum_attempts) {
        return Err(
            ConnectionPlanError::InvalidAttemptCount {
                attempt_count: maximum_attempts,
                maximum_attempts: MAX_CONNECTION_ATTEMPTS,
            },
        );
    }
    Ok(())
}

/// Validate one direct-connection request without I/O: the socket's port must not be zero, then
/// the per-attempt budget must be admissible.
pub fn validate_connection_plan(socket_port: u16, connect_timeout: Duration, maximum_attempts: u8) -> (result:
    Result<(), ConnectionPlanError>)
    ensures
        socket_port == 0 ==> result == Err::<(), ConnectionPlanError>(ConnectionPlanError::InvalidPort),
        socket_port != 0 ==> budget_outcome(connect_timeout, maximum_attempts, result),
{
    if socket_port == 0 {
        return Err(ConnectionPlanError::InvalidPort);
    }
    validate_connect_budget(connect_timeout, maximum_attempts)
}

/// Accept a requested socket port only when it is the approved origin's effective port.
pub fn check_origin_port(requested_port: u16, expected_port: u16) -> (result: Result<
    (),
    ConnectionPlanError,
>)
    ensures
        result is Ok <==> requested_port == expected_port,
        requested_port != expected_port ==> result == Err::<(), ConnectionPlanError>(
            ConnectionPlanError::OriginPortMismatch { requested_port, expected_port },
        ),
{
    if requested_port != expected_port {
        return Err(ConnectionPlanError::OriginPortMismatch { requested_port, expected_port });
    }
    Ok(())
}

/// Accept the stream that attempt `attempt_number` established only when the peer it reports is
/// exactly the requested socket; any other peer fails closed, without retry.
pub fn check_observed_peer(
    socket_address: SocketAddress,
    observed_peer: SocketAddress,
    attempt_number: u8,
) -> (result: Result<(), PeerMismatch>)
    ensures
        result is Ok <==> observed_peer == socket_address,
        observed_peer != socket_address ==> result == Err::<(), PeerMismatch>(
            PeerMismatch { socket_address, observed_peer, attempt_number },
        ),
{
    if observed_peer != socket_address {
        return Err(PeerMismatch { socket_address, observed_peer, attempt_number });
    }
    Ok(())
}

} // verus!
