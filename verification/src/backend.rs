//! Upstream backend model: identifier, endpoint address, health flag and
//! per-backend latency tracker.

use vstd::prelude::*;
use crate::ewma::PeakEwma;
use crate::ALPHA_SCALE;
use crate::LATENCY_SCALE;

verus! {

/// Baseline latency a fresh backend starts from: 50 ms in fixed-point units.
pub const DEFAULT_INITIAL_LATENCY: u64 = 50 * LATENCY_SCALE;

/// Decay factor a fresh backend starts with: one half.
pub const DEFAULT_DECAY_ALPHA: u64 = ALPHA_SCALE / 2;

/// A unique identifier for a backend server, stable for the lifetime of one
/// configuration generation.
#[derive(Debug, Clone, Copy, PartialEq, Eq, Hash, Structural)]
pub struct BackendId(pub u32);

/// An upstream endpoint address: an IPv4 host and a TCP port, held as plain
/// integers so that the routing logic can compare and key on them.
#[derive(Debug, Clone, Copy, PartialEq, Eq, Hash, Structural)]
pub struct Endpoint {
    /// Host address as a big-endian IPv4 integer.
    pub ip: u32,
    /// TCP port.
    pub port: u16,
}

/// The integer key under which an endpoint's idle connections are pooled.
pub open spec fn endpoint_key_spec(e: Endpoint) -> u64 {
    (e.ip * 0x10000 + e.port) as u64
}

impl Endpoint {
    /// The integer key under which this endpoint's idle connections are
    /// pooled; distinct endpoints map to distinct keys.
    pub fn key(&self) -> (r: u64)
        ensures
            r == endpoint_key_spec(*self),
    {
        (self.ip as u64) * 0x10000 + (self.port as u64)
    }
}

/// Distinct endpoints never share a pool key.
pub proof fn lemma_endpoint_key_injective(a: Endpoint, b: Endpoint)
    requires
        endpoint_key_spec(a) == endpoint_key_spec(b),
    ensures
        a == b,
{
    assert(a.ip == b.ip && a.port == b.port) by (nonlinear_arith)
        requires
            a.ip * 0x10000 + a.port == b.ip * 0x10000 + b.port,
            a.port < 0x10000,
            b.port < 0x10000,
    ;
}

/// One upstream backend server.
#[derive(Debug, Clone, Copy)]
pub struct Backend {
    /// The unique ID of the backend.
    pub id: BackendId,
    /// The endpoint address of the backend.
    pub addr: Endpoint,
    /// Whether the backend is currently considered healthy; flipped only by
    /// the health checker.
    pub healthy: bool,
    /// The Peak-EWMA tracker for this backend.
    pub ewma: PeakEwma,
}

impl Backend {
    /// A backend is well formed when its latency tracker is.
    pub open spec fn wf(self) -> bool {
        self.ewma.wf()
    }

    /// Create a backend at the given address: assumed healthy until a probe
    /// says otherwise, with the default baseline latency and decay factor.
    pub fn new(id: BackendId, addr: Endpoint) -> (r: Self)
        ensures
            r.id == id,
            r.addr == addr,
            r.healthy,
            r.ewma.ewma == DEFAULT_INITIAL_LATENCY,
            r.ewma.decay_alpha == DEFAULT_DECAY_ALPHA,
            r.ewma.active_requests == 0,
            r.wf(),
    {
        Backend {
            id,
            addr,
            healthy: true,
            ewma: PeakEwma::new(DEFAULT_INITIAL_LATENCY, DEFAULT_DECAY_ALPHA),
        }
    }

    /// Check if the backend is marked healthy.
    pub fn is_healthy(&self) -> (r: bool)
        ensures
            r == self.healthy,
    {
        self.healthy
    }

    /// Update the health status of the backend.
    pub fn set_healthy(&mut self, is_healthy: bool)
        ensures
            *final(self) == (Backend { healthy: is_healthy, ..*old(self) }),
    {
        self.healthy = is_healthy;
    }
}

} // verus!
