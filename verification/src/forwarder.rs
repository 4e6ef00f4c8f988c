//! The per-request forwarding state machine.
//!
//! One request moves through selection, pool lookup, readiness check,
//! connection setup, handshake and dispatch. The outside work — connecting,
//! handshaking, sending — suspends and belongs to the runtime around the
//! library; the decisions between those steps are pure and live here:
//! [`forward_step`] maps the current phase and the event that ended the last
//! step to the next phase and the action to perform.
//!
//! The machine encodes the request-path policy:
//! - a request fails with [`ProxyError::NoUpstream`] exactly when the
//!   selector found no healthy backend;
//! - a pooled sender that fails its readiness check is discarded and exactly
//!   one fresh connection attempt is made in its place;
//! - the sender is pooled and a latency sample is recorded only when a
//!   response actually arrived; no failed attempt feeds the tracker.

use vstd::prelude::*;

verus! {

/// Error kinds the request path distinguishes.
#[derive(Debug, Clone, Copy, PartialEq, Eq, Structural)]
pub enum ProxyError {
    /// The selector returned no healthy backend. Not retryable here.
    NoUpstream,
    /// TCP connect to the backend failed or timed out.
    UpstreamConnect,
    /// The HTTP/1.1 client handshake with the backend failed.
    UpstreamHandshake,
    /// Sending the request or awaiting the response failed.
    UpstreamSend,
}

/// Where a request currently stands.
#[derive(Debug, Clone, Copy, PartialEq, Eq, Structural)]
pub enum ForwardPhase {
    /// Asking the selector for the best healthy backend.
    Selecting,
    /// Asking the connection pool for an idle sender to the chosen backend.
    CheckingPool,
    /// Verifying that a pooled sender is still ready to carry a request.
    CheckingReadiness,
    /// Opening a fresh TCP connection to the backend.
    Connecting,
    /// Performing the HTTP/1.1 client handshake on a fresh connection.
    Handshaking,
    /// Rewriting the request and awaiting the response headers.
    Dispatching,
    /// The response arrived; the request succeeded.
    Done,
    /// The request failed with the given error.
    Failed(ProxyError),
}

/// What ended the last step.
#[derive(Debug, Clone, Copy, PartialEq, Eq, Structural)]
pub enum ForwardEvent {
    /// The selector chose a healthy backend.
    BackendChosen,
    /// The selector found no healthy backend.
    NoBackendAvailable,
    /// The pool handed out an idle sender.
    PoolHit,
    /// The pool had no live sender for the backend.
    PoolMiss,
    /// The pooled sender passed its readiness check.
    SenderReady,
    /// The pooled sender failed its readiness check.
    SenderStale,
    /// The TCP connect succeeded.
    ConnectSucceeded,
    /// The TCP connect failed or timed out.
    ConnectFailed,
    /// The HTTP/1.1 handshake succeeded.
    HandshakeSucceeded,
    /// The HTTP/1.1 handshake failed.
    HandshakeFailed,
    /// The response headers arrived.
    ResponseReceived,
    /// Sending the request or awaiting the response failed.
    SendFailed,
}

/// What the runtime must do next.
#[derive(Debug, Clone, Copy, PartialEq, Eq, Structural)]
pub enum ForwardAction {
    /// Consult the selector on a routing snapshot.
    Select,
    /// Pop an idle sender for the chosen backend from the pool.
    TryPool,
    /// Await the pooled sender's readiness.
    AwaitReadiness,
    /// Open a TCP connection to the backend, bounded by the connect policy.
    OpenConnection,
    /// Perform the HTTP/1.1 client handshake and spawn the driver task.
    PerformHandshake,
    /// Rewrite target and Host, send the request, await response headers.
    Dispatch,
    /// Return the sender to the pool and feed the measured round-trip
    /// latency into the backend's tracker.
    PoolAndObserve,
    /// Drop any half-built connection, never pooling it, and surface the
    /// error; the in-flight guard still releases. No latency is recorded.
    Fail(ProxyError),
}

/// The transition table: from a phase, on an event, to the next phase and
/// the action that enters it. `None` for events that cannot occur in the
/// phase.
pub open spec fn forward_step_spec(phase: ForwardPhase, event: ForwardEvent) -> Option<
    (ForwardPhase, ForwardAction),
> {
    match (phase, event) {
        (ForwardPhase::Selecting, ForwardEvent::BackendChosen) => Some(
            (ForwardPhase::CheckingPool, ForwardAction::TryPool),
        ),
        (ForwardPhase::Selecting, ForwardEvent::NoBackendAvailable) => Some(
            (
                ForwardPhase::Failed(ProxyError::NoUpstream),
                ForwardAction::Fail(ProxyError::NoUpstream),
            ),
        ),
        (ForwardPhase::CheckingPool, ForwardEvent::PoolHit) => Some(
            (ForwardPhase::CheckingReadiness, ForwardAction::AwaitReadiness),
        ),
        (ForwardPhase::CheckingPool, ForwardEvent::PoolMiss) => Some(
            (ForwardPhase::Connecting, ForwardAction::OpenConnection),
        ),
        (ForwardPhase::CheckingReadiness, ForwardEvent::SenderReady) => Some(
            (ForwardPhase::Dispatching, ForwardAction::Dispatch),
        ),
        (ForwardPhase::CheckingReadiness, ForwardEvent::SenderStale) => Some(
            (ForwardPhase::Connecting, ForwardAction::OpenConnection),
        ),
        (ForwardPhase::Connecting, ForwardEvent::ConnectSucceeded) => Some(
            (ForwardPhase::Handshaking, ForwardAction::PerformHandshake),
        ),
        (ForwardPhase::Connecting, ForwardEvent::ConnectFailed) => Some(
            (
                ForwardPhase::Failed(ProxyError::UpstreamConnect),
                ForwardAction::Fail(ProxyError::UpstreamConnect),
            ),
        ),
        (ForwardPhase::Handshaking, ForwardEvent::HandshakeSucceeded) => Some(
            (ForwardPhase::Dispatching, ForwardAction::Dispatch),
        ),
        (ForwardPhase::Handshaking, ForwardEvent::HandshakeFailed) => Some(
            (
                ForwardPhase::Failed(ProxyError::UpstreamHandshake),
                ForwardAction::Fail(ProxyError::UpstreamHandshake),
            ),
        ),
        (ForwardPhase::Dispatching, ForwardEvent::ResponseReceived) => Some(
            (ForwardPhase::Done, ForwardAction::PoolAndObserve),
        ),
        (ForwardPhase::Dispatching, ForwardEvent::SendFailed) => Some(
            (
                ForwardPhase::Failed(ProxyError::UpstreamSend),
                ForwardAction::Fail(ProxyError::UpstreamSend),
            ),
        ),
        _ => None,
    }
}

/// Whether a phase ends the request.
pub open spec fn is_terminal_spec(phase: ForwardPhase) -> bool {
    phase == ForwardPhase::Done || phase matches ForwardPhase::Failed(_)
}

/// Advance the request by one step: from the current phase, on the event
/// that ended the last action, to the next phase and the action entering
/// it. Returns `None` exactly for events that cannot occur in the phase.
pub fn forward_step(phase: ForwardPhase, event: ForwardEvent) -> (r: Option<
    (ForwardPhase, ForwardAction),
>)
    ensures
        r == forward_step_spec(phase, event),
{
    match (phase, event) {
        (ForwardPhase::Selecting, ForwardEvent::BackendChosen) => Some(
            (ForwardPhase::CheckingPool, ForwardAction::TryPool),
        ),
        (ForwardPhase::Selecting, ForwardEvent::NoBackendAvailable) => Some(
            (
                ForwardPhase::Failed(ProxyError::NoUpstream),
                ForwardAction::Fail(ProxyError::NoUpstream),
            ),
        ),
        (ForwardPhase::CheckingPool, ForwardEvent::PoolHit) => Some(
            (ForwardPhase::CheckingReadiness, ForwardAction::AwaitReadiness),
        ),
        (ForwardPhase::CheckingPool, ForwardEvent::PoolMiss) => Some(
            (ForwardPhase::Connecting, ForwardAction::OpenConnection),
        ),
        (ForwardPhase::CheckingReadiness, ForwardEvent::SenderReady) => Some(
            (ForwardPhase::Dispatching, ForwardAction::Dispatch),
        ),
        (ForwardPhase::CheckingReadiness, ForwardEvent::SenderStale) => Some(
            (ForwardPhase::Connecting, ForwardAction::OpenConnection),
        ),
        (ForwardPhase::Connecting, ForwardEvent::ConnectSucceeded) => Some(
            (ForwardPhase::Handshaking, ForwardAction::PerformHandshake),
        ),
        (ForwardPhase::Connecting, ForwardEvent::ConnectFailed) => Some(
            (
                ForwardPhase::Failed(ProxyError::UpstreamConnect),
                ForwardAction::Fail(ProxyError::UpstreamConnect),
            ),
        ),
        (ForwardPhase::Handshaking, ForwardEvent::HandshakeSucceeded) => Some(
            (ForwardPhase::Dispatching, ForwardAction::Dispatch),
        ),
        (ForwardPhase::Handshaking, ForwardEvent::HandshakeFailed) => Some(
            (
                ForwardPhase::Failed(ProxyError::UpstreamHandshake),
                ForwardAction::Fail(ProxyError::UpstreamHandshake),
            ),
        ),
        (ForwardPhase::Dispatching, ForwardEvent::ResponseReceived) => Some(
            (ForwardPhase::Done, ForwardAction::PoolAndObserve),
        ),
        (ForwardPhase::Dispatching, ForwardEvent::SendFailed) => Some(
            (
                ForwardPhase::Failed(ProxyError::UpstreamSend),
                ForwardAction::Fail(ProxyError::UpstreamSend),
            ),
        ),
        _ => None,
    }
}

/// Whether a phase ends the request.
pub fn is_terminal(phase: ForwardPhase) -> (r: bool)
    ensures
        r == is_terminal_spec(phase),
{
    match phase {
        ForwardPhase::Done => true,
        ForwardPhase::Failed(_) => true,
        _ => false,
    }
}

/// A sender is pooled and a latency sample is recorded only when a response
/// actually arrived: the only transition that performs
/// [`ForwardAction::PoolAndObserve`] is the successful dispatch, so no
/// failed or cancelled attempt ever feeds the tracker or the pool.
pub proof fn lemma_observe_only_on_response(phase: ForwardPhase, event: ForwardEvent)
    requires
        forward_step_spec(phase, event) matches Some(step) && step.1
            == ForwardAction::PoolAndObserve,
    ensures
        phase == ForwardPhase::Dispatching,
        event == ForwardEvent::ResponseReceived,
        forward_step_spec(phase, event) == Some((ForwardPhase::Done, ForwardAction::PoolAndObserve)),
{
}

/// A stale pooled sender gets exactly one fresh-connection attempt: the
/// readiness check is entered only from a pool hit, and a fresh connection's
/// failure goes straight to a terminal error, so no request loops back to
/// the pool after a stale sender.
pub proof fn lemma_single_retry_after_stale(phase: ForwardPhase, event: ForwardEvent)
    ensures
        forward_step_spec(phase, event) matches Some(step) && step.0
            == ForwardPhase::CheckingReadiness ==> (phase == ForwardPhase::CheckingPool && event
            == ForwardEvent::PoolHit),
        forward_step_spec(phase, event) matches Some(step) && step.0 == ForwardPhase::CheckingPool
            ==> phase == ForwardPhase::Selecting,
{
}

/// Every error is reached from exactly the failure that names it: the
/// machine fails with `NoUpstream` only out of selection, with
/// `UpstreamConnect` only out of a connect attempt, with `UpstreamHandshake`
/// only out of the handshake, and with `UpstreamSend` only out of dispatch.
pub proof fn lemma_error_provenance(phase: ForwardPhase, event: ForwardEvent, err: ProxyError)
    requires
        forward_step_spec(phase, event) matches Some(step) && step.0 == ForwardPhase::Failed(err),
    ensures
        err == ProxyError::NoUpstream <==> (phase == ForwardPhase::Selecting && event
            == ForwardEvent::NoBackendAvailable),
        err == ProxyError::UpstreamConnect <==> (phase == ForwardPhase::Connecting && event
            == ForwardEvent::ConnectFailed),
        err == ProxyError::UpstreamHandshake <==> (phase == ForwardPhase::Handshaking && event
            == ForwardEvent::HandshakeFailed),
        err == ProxyError::UpstreamSend <==> (phase == ForwardPhase::Dispatching && event
            == ForwardEvent::SendFailed),
{
}

} // verus!
