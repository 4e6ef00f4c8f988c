// Tests of the per-request forwarding state machine: the happy paths, the
// single stale-sender retry, and each error's provenance.

use vortex::forwarder::{
    forward_step, is_terminal, ForwardAction, ForwardEvent, ForwardPhase, ProxyError,
};

#[test]
fn test_forward_pooled_sender_happy_path() {
    let (p, a) = forward_step(ForwardPhase::Selecting, ForwardEvent::BackendChosen).unwrap();
    assert_eq!(p, ForwardPhase::CheckingPool);
    assert_eq!(a, ForwardAction::TryPool);

    let (p, a) = forward_step(p, ForwardEvent::PoolHit).unwrap();
    assert_eq!(p, ForwardPhase::CheckingReadiness);
    assert_eq!(a, ForwardAction::AwaitReadiness);

    let (p, a) = forward_step(p, ForwardEvent::SenderReady).unwrap();
    assert_eq!(p, ForwardPhase::Dispatching);
    assert_eq!(a, ForwardAction::Dispatch);

    let (p, a) = forward_step(p, ForwardEvent::ResponseReceived).unwrap();
    assert_eq!(p, ForwardPhase::Done);
    assert_eq!(a, ForwardAction::PoolAndObserve);
    assert!(is_terminal(p));
}

#[test]
fn test_forward_fresh_connection_happy_path() {
    let (p, _) = forward_step(ForwardPhase::Selecting, ForwardEvent::BackendChosen).unwrap();
    let (p, a) = forward_step(p, ForwardEvent::PoolMiss).unwrap();
    assert_eq!(p, ForwardPhase::Connecting);
    assert_eq!(a, ForwardAction::OpenConnection);

    let (p, a) = forward_step(p, ForwardEvent::ConnectSucceeded).unwrap();
    assert_eq!(p, ForwardPhase::Handshaking);
    assert_eq!(a, ForwardAction::PerformHandshake);

    let (p, a) = forward_step(p, ForwardEvent::HandshakeSucceeded).unwrap();
    assert_eq!(p, ForwardPhase::Dispatching);
    assert_eq!(a, ForwardAction::Dispatch);

    let (p, _) = forward_step(p, ForwardEvent::ResponseReceived).unwrap();
    assert_eq!(p, ForwardPhase::Done);
}

#[test]
fn test_forward_stale_sender_gets_one_fresh_attempt() {
    let (p, _) = forward_step(ForwardPhase::Selecting, ForwardEvent::BackendChosen).unwrap();
    let (p, _) = forward_step(p, ForwardEvent::PoolHit).unwrap();

    // The pooled sender fails its readiness check: fall back to a fresh
    // connection, not to the pool.
    let (p, a) = forward_step(p, ForwardEvent::SenderStale).unwrap();
    assert_eq!(p, ForwardPhase::Connecting);
    assert_eq!(a, ForwardAction::OpenConnection);

    // If that fresh attempt cannot connect, the request fails: no second retry.
    let (p, a) = forward_step(p, ForwardEvent::ConnectFailed).unwrap();
    assert_eq!(p, ForwardPhase::Failed(ProxyError::UpstreamConnect));
    assert_eq!(a, ForwardAction::Fail(ProxyError::UpstreamConnect));
    assert!(is_terminal(p));
}

#[test]
fn test_forward_no_upstream_fails_request() {
    let (p, a) = forward_step(ForwardPhase::Selecting, ForwardEvent::NoBackendAvailable).unwrap();
    assert_eq!(p, ForwardPhase::Failed(ProxyError::NoUpstream));
    assert_eq!(a, ForwardAction::Fail(ProxyError::NoUpstream));
}

#[test]
fn test_forward_handshake_failure() {
    let (p, _) = forward_step(ForwardPhase::Selecting, ForwardEvent::BackendChosen).unwrap();
    let (p, _) = forward_step(p, ForwardEvent::PoolMiss).unwrap();
    let (p, _) = forward_step(p, ForwardEvent::ConnectSucceeded).unwrap();
    let (p, a) = forward_step(p, ForwardEvent::HandshakeFailed).unwrap();
    assert_eq!(p, ForwardPhase::Failed(ProxyError::UpstreamHandshake));
    assert_eq!(a, ForwardAction::Fail(ProxyError::UpstreamHandshake));
}

#[test]
fn test_forward_send_failure_never_pools_or_observes() {
    let (p, _) = forward_step(ForwardPhase::Selecting, ForwardEvent::BackendChosen).unwrap();
    let (p, _) = forward_step(p, ForwardEvent::PoolMiss).unwrap();
    let (p, _) = forward_step(p, ForwardEvent::ConnectSucceeded).unwrap();
    let (p, _) = forward_step(p, ForwardEvent::HandshakeSucceeded).unwrap();
    let (p, a) = forward_step(p, ForwardEvent::SendFailed).unwrap();
    assert_eq!(p, ForwardPhase::Failed(ProxyError::UpstreamSend));
    // The failing attempt surfaces the error: the sender is dropped, and no
    // latency sample is recorded.
    assert_eq!(a, ForwardAction::Fail(ProxyError::UpstreamSend));
}

#[test]
fn test_forward_rejects_impossible_events() {
    assert!(forward_step(ForwardPhase::Selecting, ForwardEvent::PoolHit).is_none());
    assert!(forward_step(ForwardPhase::Done, ForwardEvent::ResponseReceived).is_none());
    assert!(forward_step(ForwardPhase::Connecting, ForwardEvent::SenderReady).is_none());
    assert!(
        forward_step(ForwardPhase::Failed(ProxyError::NoUpstream), ForwardEvent::BackendChosen)
            .is_none()
    );
}
