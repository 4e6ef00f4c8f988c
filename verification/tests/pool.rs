// Tests of the connection pool, run against real hyper HTTP/1.1 senders
// created over in-memory duplex streams: a live sender is pooled and handed
// back out, a closed sender is dropped on push, and closed senders queued
// earlier are drained on pop instead of being returned.

use hyper::body::Incoming;
use hyper::client::conn::http1::{Connection, SendRequest};
use hyper_util::rt::TokioIo;
use tokio::io::DuplexStream;
use tokio::runtime::Runtime;
use vortex::pool::{ConnectionPool, PooledSender};

type TestConnection = Connection<TokioIo<DuplexStream>, Incoming>;

// The server half of the duplex pipe and the connection future must stay
// alive for the sender to report open, so hand them back to the caller.
fn make_sender(rt: &Runtime) -> (SendRequest<Incoming>, TestConnection, DuplexStream) {
    rt.block_on(async {
        let (client_io, server_io) = tokio::io::duplex(4096);
        let (sender, connection) =
            hyper::client::conn::http1::handshake::<_, Incoming>(TokioIo::new(client_io))
                .await
                .expect("in-memory handshake");
        (sender, connection, server_io)
    })
}

#[test]
fn test_pool_returns_live_sender() {
    let rt = Runtime::new().unwrap();
    let (sender, _conn, _server) = make_sender(&rt);
    assert!(!sender.is_closed());

    let mut pool = ConnectionPool::new();
    let key: u64 = 7;
    pool.push(key, PooledSender { inner: sender });
    assert_eq!(pool.idle_count(key), 1);

    let got = pool.try_pop(key).expect("a live sender was pooled");
    assert!(!got.is_closed());
    assert_eq!(pool.idle_count(key), 0);

    // The queue is drained now.
    assert!(pool.try_pop(key).is_none());
}

#[test]
fn test_pool_drops_closed_sender_on_push() {
    let rt = Runtime::new().unwrap();
    let (sender, conn, _server) = make_sender(&rt);

    // Dropping the connection closes the sender's side.
    drop(conn);
    assert!(sender.is_closed());

    let mut pool = ConnectionPool::new();
    let key: u64 = 7;
    pool.push(key, PooledSender { inner: sender });
    // The closed sender was dropped, not pooled.
    assert_eq!(pool.idle_count(key), 0);
    assert!(pool.try_pop(key).is_none());
}

#[test]
fn test_pool_drains_senders_that_closed_while_pooled() {
    let rt = Runtime::new().unwrap();
    let (s1, c1, _srv1) = make_sender(&rt);
    let (s2, c2, _srv2) = make_sender(&rt);

    let mut pool = ConnectionPool::new();
    let key: u64 = 42;
    pool.push(key, PooledSender { inner: s1 });
    pool.push(key, PooledSender { inner: s2 });
    assert_eq!(pool.idle_count(key), 2);

    // Both connections die while their senders sit in the pool.
    drop(c1);
    drop(c2);

    // Pop never returns a sender that reports closed: both are discarded.
    assert!(pool.try_pop(key).is_none());
    assert_eq!(pool.idle_count(key), 0);
}

#[test]
fn test_pool_keys_are_independent() {
    let rt = Runtime::new().unwrap();
    let (s1, _c1, _srv1) = make_sender(&rt);

    let mut pool = ConnectionPool::new();
    pool.push(1, PooledSender { inner: s1 });
    assert_eq!(pool.idle_count(1), 1);
    assert_eq!(pool.idle_count(2), 0);

    // Draining one key leaves the other untouched.
    assert!(pool.try_pop(2).is_none());
    assert_eq!(pool.idle_count(1), 1);
}

#[test]
fn test_pool_count_tracks_pushes_and_pops() {
    let rt = Runtime::new().unwrap();
    let (s1, _c1, _srv1) = make_sender(&rt);
    let (s2, _c2, _srv2) = make_sender(&rt);
    let (s3, c3, _srv3) = make_sender(&rt);
    drop(c3);

    let mut pool = ConnectionPool::new();
    let key: u64 = 9;
    // Two live pushes and one closed push: count is pushes minus drops.
    pool.push(key, PooledSender { inner: s1 });
    pool.push(key, PooledSender { inner: s2 });
    pool.push(key, PooledSender { inner: s3 });
    assert_eq!(pool.idle_count(key), 2);

    // One pop of a live sender: count is pushes minus pops minus drops.
    assert!(pool.try_pop(key).is_some());
    assert_eq!(pool.idle_count(key), 1);
}
