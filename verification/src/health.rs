//! Health-state bookkeeping for the background prober.
//!
//! The prober itself lives outside the library: on every tick it takes a
//! snapshot, attempts a short-timeout TCP connect to each backend, and hands
//! the outcomes back here. This module holds the decisions: the timing
//! parameters with their invariant, and the commit of probe outcomes into
//! the routing table's health flags.

use vstd::prelude::*;
use crate::backend::Backend;
use crate::routing::RoutingTable;

verus! {

/// Default delay between two probe rounds.
pub const DEFAULT_PROBE_INTERVAL_MS: u64 = 5000;

/// Default bound on one probe's TCP connect attempt.
pub const DEFAULT_PROBE_TIMEOUT_MS: u64 = 1500;

/// Timing parameters of the health checker. The connect timeout is always
/// strictly shorter than the probe interval, so one round of probes can
/// finish before the next is due.
#[derive(Debug, Clone, Copy, PartialEq, Eq, Structural)]
pub struct HealthCheckConfig {
    /// Milliseconds between two probe rounds; the first round runs one
    /// interval after startup, not immediately.
    pub interval_ms: u64,
    /// Milliseconds a single probe's connect attempt may take.
    pub timeout_ms: u64,
}

impl HealthCheckConfig {
    /// The configuration invariant: a strictly positive timeout, strictly
    /// shorter than the interval.
    pub open spec fn wf(self) -> bool {
        0 < self.timeout_ms < self.interval_ms
    }

    /// Build a configuration from validated parameters.
    pub fn new(interval_ms: u64, timeout_ms: u64) -> (r: Self)
        requires
            0 < timeout_ms < interval_ms,
        ensures
            r.interval_ms == interval_ms,
            r.timeout_ms == timeout_ms,
            r.wf(),
    {
        HealthCheckConfig { interval_ms, timeout_ms }
    }

    /// Build a configuration from unvalidated parameters: `None` exactly
    /// when the timeout is zero or does not fit under the interval.
    pub fn try_new(interval_ms: u64, timeout_ms: u64) -> (r: Option<Self>)
        ensures
            match r {
                Some(c) => {
                    &&& 0 < timeout_ms < interval_ms
                    &&& c.interval_ms == interval_ms
                    &&& c.timeout_ms == timeout_ms
                    &&& c.wf()
                },
                None => !(0 < timeout_ms < interval_ms),
            },
    {
        if 0 < timeout_ms && timeout_ms < interval_ms {
            Some(HealthCheckConfig { interval_ms, timeout_ms })
        } else {
            None
        }
    }
}

/// Commit one probe outcome into the table: the backend's health flag
/// becomes the probe result, everything else about it stays. Returns whether
/// the flag flipped, so that the caller can log the transition once per
/// flip.
pub fn commit_probe(table: &mut RoutingTable, index: usize, probe_up: bool) -> (changed: bool)
    requires
        index < old(table).backends@.len(),
    ensures
        changed == (old(table).backends@[index as int].healthy != probe_up),
        final(table).backends@ == old(table).backends@.update(
            index as int,
            (Backend { healthy: probe_up, ..old(table).backends@[index as int] }),
        ),
{
    let was_healthy = table.backends[index].is_healthy();
    table.set_healthy_at(index, probe_up);
    was_healthy != probe_up
}

/// Commit a whole round of probe outcomes, one per backend in order: every
/// health flag becomes its probe result, and nothing else about any backend
/// changes.
pub fn apply_probe_results(table: &mut RoutingTable, results: &Vec<bool>)
    requires
        results@.len() == old(table).backends@.len(),
    ensures
        final(table).backends@.len() == old(table).backends@.len(),
        forall|i: int|
            0 <= i < final(table).backends@.len() ==> #[trigger] final(table).backends@[i]
                == (Backend { healthy: results@[i], ..old(table).backends@[i] }),
{
    let ghost orig = table.backends@;
    let mut i: usize = 0;
    while i < results.len()
        invariant
            results@.len() == orig.len(),
            table.backends@.len() == orig.len(),
            i <= orig.len(),
            forall|j: int|
                0 <= j < i ==> #[trigger] table.backends@[j] == (Backend {
                    healthy: results@[j],
                    ..orig[j]
                }),
            forall|j: int| i <= j < orig.len() ==> #[trigger] table.backends@[j] == orig[j],
        decreases orig.len() - i,
    {
        commit_probe(table, i, results[i]);
        i = i + 1;
    }
}

} // verus!
