//! Core of a latency-aware HTTP/1.1 reverse proxy: a hot-reloadable routing
//! table of upstream backends, a Peak-EWMA latency tracker with an in-flight
//! gauge, a connection pool of reusable upstream senders, health-state
//! bookkeeping, and the per-request forwarding state machine.

use vstd::prelude::*;

pub mod backend;
pub mod ewma;
pub mod forwarder;
pub mod health;
pub mod pool;
pub mod routing;
pub mod selector;
pub mod uri;

verus! {

/// Fixed-point latency units per millisecond: latencies are carried in
/// thousandths of a millisecond so that decay updates stay exact.
pub const LATENCY_SCALE: u64 = 1000;

/// Denominator of the decay factor: an alpha of `a` denotes the real
/// decay factor `a / ALPHA_SCALE`, so alpha must lie strictly between
/// 0 and ALPHA_SCALE.
pub const ALPHA_SCALE: u64 = 1000;

/// Largest representable latency, chosen so that the fixed-point decay
/// arithmetic and the score product can never overflow their machine words.
pub const LATENCY_LIMIT: u64 = (u64::MAX - (ALPHA_SCALE - 1)) / ALPHA_SCALE;

} // verus!
