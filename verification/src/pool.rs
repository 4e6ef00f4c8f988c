//! Connection pool: a reservoir of idle upstream HTTP/1.1 senders, keyed by
//! backend endpoint.
//!
//! A sender is an open, post-handshake client connection. Pooling one
//! amortizes the TCP and HTTP/1.1 handshake cost across requests. A sender
//! that reports its connection closed is silently dropped, never handed out
//! and never stored; whether a sender is closed is a fact about the live
//! connection, not about the value, so the contracts here track which
//! senders move where and leave closedness to the runtime check.
//!
//! The storage is a map of per-endpoint FIFO queues from outside crates,
//! reached only through the trusted wrappers below; their contracts speak of
//! the queue contents through [`pool_contents`].

use vstd::prelude::*;
use std::collections::hash_map::RandomState;
use crossbeam_queue::SegQueue;
use dashmap::DashMap;
use hyper::body::Incoming;
use hyper::client::conn::http1::SendRequest;

verus! {

#[verifier::external_type_specification]
#[verifier::external_body]
#[verifier::reject_recursive_types(B)]
pub struct ExSendRequest<B>(SendRequest<B>);

#[verifier::external_type_specification]
#[verifier::external_body]
pub struct ExIncoming(Incoming);

#[verifier::external_type_specification]
#[verifier::external_body]
#[verifier::reject_recursive_types(T)]
pub struct ExSegQueue<T>(SegQueue<T>);

#[verifier::external_type_specification]
#[verifier::external_body]
#[verifier::reject_recursive_types(K)]
#[verifier::reject_recursive_types(V)]
#[verifier::reject_recursive_types(S)]
pub struct ExDashMap<K, V, S>(DashMap<K, V, S>);

/// Relies on hyper's `SendRequest::is_closed`: whether the connection side
/// has been closed. The answer depends on the live connection and can change
/// between calls, so nothing is promised of it.
pub assume_specification<B>[ SendRequest::<B>::is_closed ](sender: &SendRequest<B>) -> bool;

/// An idle upstream HTTP/1.1 sender as the pool stores it.
pub struct PooledSender {
    /// The underlying post-handshake client handle.
    pub inner: SendRequest<Incoming>,
}

impl PooledSender {
    /// Whether this sender's connection side reports closed. A fresh answer
    /// from the transport: it may change between calls, so a live answer now
    /// is only a hint by dispatch time.
    pub fn is_closed(&self) -> bool {
        self.inner.is_closed()
    }
}

/// The pool's storage: a concurrent map of per-endpoint FIFO queues.
pub type PoolStorage = DashMap<u64, SegQueue<PooledSender>, RandomState>;

/// What the pool's storage holds: for each endpoint key present, the idle
/// senders queued under it, front of the queue first.
pub uninterp spec fn pool_contents(m: PoolStorage) -> Map<u64, Seq<PooledSender>>;

/// Relies on dashmap's `DashMap::new`: a freshly created map holds no keys.
#[verifier::external_body]
fn storage_new() -> (r: PoolStorage)
    ensures
        pool_contents(r) =~= Map::empty(),
{
    DashMap::new()
}

/// Relies on dashmap's `DashMap::get` and crossbeam's `SegQueue::pop`: `pop`
/// takes the element at the front of the per-key FIFO queue, or returns
/// `None` when the key is absent or its queue is empty. No key appears or
/// disappears, and other keys' queues are untouched.
#[verifier::external_body]
fn storage_pop(m: &mut PoolStorage, key: u64) -> (r: Option<PooledSender>)
    ensures
        pool_contents(*final(m)).dom() == pool_contents(*old(m)).dom(),
        match r {
            Some(s) => {
                &&& pool_contents(*old(m)).dom().contains(key)
                &&& pool_contents(*old(m))[key].len() > 0
                &&& s == pool_contents(*old(m))[key][0]
                &&& pool_contents(*final(m)) == pool_contents(*old(m)).insert(
                    key,
                    pool_contents(*old(m))[key].skip(1),
                )
            },
            None => {
                &&& pool_contents(*final(m)) == pool_contents(*old(m))
                &&& (pool_contents(*old(m)).dom().contains(key) ==> pool_contents(*old(m))[key].len()
                    == 0)
            },
        },
{
    match m.get(&key) {
        Some(queue) => queue.pop(),
        None => None,
    }
}

/// Relies on dashmap's entry API and crossbeam's `SegQueue::push`: the
/// sender joins the back of the per-key FIFO queue, which is created empty
/// on first use; other keys' queues are untouched.
#[verifier::external_body]
fn storage_push(m: &mut PoolStorage, key: u64, sender: PooledSender)
    ensures
        ({
            let before = if pool_contents(*old(m)).dom().contains(key) {
                pool_contents(*old(m))[key]
            } else {
                Seq::<PooledSender>::empty()
            };
            pool_contents(*final(m)) == pool_contents(*old(m)).insert(key, before.push(sender))
        }),
{
    m.entry(key).or_default().push(sender);
}

/// Relies on dashmap's `DashMap::get` and crossbeam's `SegQueue::len`: the
/// number of senders queued under a key, zero when the key is absent.
#[verifier::external_body]
fn storage_len(m: &PoolStorage, key: u64) -> (r: usize)
    ensures
        r == if pool_contents(*m).dom().contains(key) {
            pool_contents(*m)[key].len()
        } else {
            0
        },
{
    match m.get(&key) {
        Some(queue) => queue.len(),
        None => 0,
    }
}

/// A pool of idle upstream senders, one FIFO queue per endpoint key.
pub struct ConnectionPool {
    idle_connections: PoolStorage,
}

impl ConnectionPool {
    /// The pool's contents: for each endpoint key present, the idle senders
    /// queued under it, front first.
    pub closed spec fn contents(&self) -> Map<u64, Seq<PooledSender>> {
        pool_contents(self.idle_connections)
    }

    /// Create an empty connection pool.
    pub fn new() -> (r: Self)
        ensures
            r.contents() == Map::<u64, Seq<PooledSender>>::empty(),
    {
        ConnectionPool { idle_connections: storage_new() }
    }

    /// Pop an idle sender for the given endpoint key: senders leave the
    /// front of the queue one at a time, any that report closed are
    /// discarded, and the first live one is returned. `None` means the queue
    /// was drained (every queued sender reported closed) or no queue exists
    /// for the key. Queues of other keys are untouched.
    pub fn try_pop(&mut self, key: u64) -> (r: Option<PooledSender>)
        ensures
            final(self).contents().dom() == old(self).contents().dom(),
            forall|k: u64|
                old(self).contents().dom().contains(k) && k != key
                    ==> #[trigger] final(self).contents()[k] == old(self).contents()[k],
            match r {
                Some(s) => {
                    &&& old(self).contents().dom().contains(key)
                    &&& exists|j: int|
                        {
                            &&& 0 <= j < old(self).contents()[key].len()
                            &&& s == old(self).contents()[key][j]
                            &&& final(self).contents()[key] == old(self).contents()[key].skip(j + 1)
                        }
                },
                None => old(self).contents().dom().contains(key) ==> final(self).contents()[key]
                    =~= Seq::<PooledSender>::empty(),
            },
    {
        let ghost orig = old(self).contents();
        let ghost mut dropped: int = 0;
        loop
            invariant
                orig == old(self).contents(),
                self.contents().dom() == orig.dom(),
                forall|k: u64|
                    orig.dom().contains(k) && k != key ==> #[trigger] self.contents()[k] == orig[k],
                orig.dom().contains(key) ==> {
                    &&& 0 <= dropped <= orig[key].len()
                    &&& self.contents()[key] == orig[key].skip(dropped)
                },
                !orig.dom().contains(key) ==> self.contents() == orig,
            decreases (if orig.dom().contains(key) {
                orig[key].len() - dropped
            } else {
                0
            }),
        {
            match storage_pop(&mut self.idle_connections, key) {
                None => {
                    return None;
                },
                Some(sender) => {
                    proof {
                        assert(orig[key].skip(dropped).skip(1) =~= orig[key].skip(dropped + 1));
                        assert(sender == orig[key][dropped]);
                    }
                    if !sender.is_closed() {
                        return Some(sender);
                    }
                    // The sender reported closed: drop it and keep draining.
                    proof {
                        dropped = dropped + 1;
                    }
                },
            }
        }
    }

    /// Return a sender to the pool under the given endpoint key. A sender
    /// that reports closed is dropped instead of stored, so every sender
    /// ever queued was live when it was queued; a live one joins the back of
    /// the key's queue, which is created on first use.
    pub fn push(&mut self, key: u64, sender: PooledSender)
        ensures
            ({
                let before = if old(self).contents().dom().contains(key) {
                    old(self).contents()[key]
                } else {
                    Seq::<PooledSender>::empty()
                };
                ||| final(self).contents() == old(self).contents().insert(key, before.push(sender))
                ||| final(self).contents() == old(self).contents()
            }),
    {
        if sender.is_closed() {
            return;
        }
        storage_push(&mut self.idle_connections, key, sender);
    }

    /// How many idle senders are queued under the given endpoint key.
    pub fn idle_count(&self, key: u64) -> (r: usize)
        ensures
            r == if self.contents().dom().contains(key) {
                self.contents()[key].len()
            } else {
                0
            },
    {
        storage_len(&self.idle_connections, key)
    }
}

} // verus!
