//! The routing table: the source of truth for the set of configured
//! backends.
//!
//! A table holds an ordered sequence of backends. Replacing the whole
//! sequence models a configuration hot reload; a snapshot is an owned copy
//! of the sequence, so a snapshot taken before a replacement keeps its
//! contents whatever happens to the table afterwards.

use vstd::prelude::*;
use crate::backend::Backend;
use crate::ewma::ActiveRequestGuard;
use crate::LATENCY_LIMIT;

verus! {

/// A routing table mapping traffic to an ordered sequence of backends.
#[derive(Debug)]
pub struct RoutingTable {
    /// The current backends, in configuration order.
    pub backends: Vec<Backend>,
}

impl RoutingTable {
    /// A table is well formed when every backend in it is.
    pub open spec fn wf(self) -> bool {
        forall|i: int| 0 <= i < self.backends@.len() ==> #[trigger] self.backends@[i].wf()
    }

    /// Create a routing table with the initial set of backends.
    pub fn new(initial_backends: Vec<Backend>) -> (r: Self)
        ensures
            r.backends@ == initial_backends@,
    {
        RoutingTable { backends: initial_backends }
    }

    /// Atomically replace the entire set of backends, as during a
    /// configuration hot reload. Snapshots taken earlier are owned values
    /// and keep their contents.
    pub fn update_backends(&mut self, new_backends: Vec<Backend>)
        ensures
            final(self).backends@ == new_backends@,
    {
        self.backends = new_backends;
    }

    /// The number of configured backends.
    pub fn len(&self) -> (r: usize)
        ensures
            r == self.backends@.len(),
    {
        self.backends.len()
    }

    /// Select the first healthy backend in configuration order, if any.
    pub fn get_healthy_backend(&self) -> (r: Option<Backend>)
        ensures
            match r {
                Some(b) => exists|i: int|
                    {
                        &&& 0 <= i < self.backends@.len()
                        &&& #[trigger] self.backends@[i] == b
                        &&& b.healthy
                        &&& forall|j: int| 0 <= j < i ==> !(#[trigger] self.backends@[j].healthy)
                    },
                None => forall|i: int|
                    0 <= i < self.backends@.len() ==> !(#[trigger] self.backends@[i].healthy),
            },
    {
        let mut i: usize = 0;
        while i < self.backends.len()
            invariant
                i <= self.backends@.len(),
                forall|j: int| 0 <= j < i ==> !(#[trigger] self.backends@[j].healthy),
            decreases self.backends@.len() - i,
        {
            if self.backends[i].healthy {
                return Some(self.backends[i]);
            }
            i = i + 1;
        }
        None
    }

    /// Take a stable snapshot of all current backends: an owned copy whose
    /// contents equal the table's current sequence and are unaffected by any
    /// later replacement.
    pub fn snapshot(&self) -> (r: Vec<Backend>)
        ensures
            r@ == self.backends@,
    {
        let mut out: Vec<Backend> = Vec::new();
        let mut i: usize = 0;
        while i < self.backends.len()
            invariant
                i <= self.backends@.len(),
                out@ == self.backends@.take(i as int),
            decreases self.backends@.len() - i,
        {
            proof {
                assert(self.backends@.take(i + 1) =~= self.backends@.take(i as int).push(
                    self.backends@[i as int],
                ));
            }
            out.push(self.backends[i]);
            i = i + 1;
        }
        proof {
            assert(self.backends@.take(self.backends@.len() as int) =~= self.backends@);
        }
        out
    }

    /// Set the health flag of the backend at `index`, leaving everything
    /// else about it untouched.
    pub fn set_healthy_at(&mut self, index: usize, is_healthy: bool)
        requires
            index < old(self).backends@.len(),
        ensures
            final(self).backends@ == old(self).backends@.update(
                index as int,
                (Backend { healthy: is_healthy, ..old(self).backends@[index as int] }),
            ),
    {
        let mut b = self.backends[index];
        b.set_healthy(is_healthy);
        self.backends[index] = b;
    }

    /// Fold an observed round-trip latency into the tracker of the backend
    /// at `index`.
    pub fn observe_latency_at(&mut self, index: usize, rtt: u64)
        requires
            index < old(self).backends@.len(),
            old(self).backends@[index as int].wf(),
            rtt <= LATENCY_LIMIT,
        ensures
            final(self).backends@.len() == old(self).backends@.len(),
            final(self).backends@ == old(self).backends@.update(
                index as int,
                final(self).backends@[index as int],
            ),
            final(self).backends@[index as int] == (Backend {
                ewma: final(self).backends@[index as int].ewma,
                ..old(self).backends@[index as int]
            }),
            ({
                let before = old(self).backends@[index as int].ewma;
                let after = final(self).backends@[index as int].ewma;
                &&& after.ewma == crate::ewma::ewma_step(before.ewma as int, before.decay_alpha as int, rtt as int)
                &&& after.decay_alpha == before.decay_alpha
                &&& after.active_requests == before.active_requests
                &&& after.wf()
            }),
    {
        let mut b = self.backends[index];
        b.ewma.observe_latency(rtt);
        self.backends[index] = b;
    }

    /// Raise the in-flight gauge of the backend at `index`, handing out the
    /// guard for the dispatched request.
    pub fn begin_request_at(&mut self, index: usize) -> (r: ActiveRequestGuard)
        requires
            index < old(self).backends@.len(),
            old(self).backends@[index as int].ewma.active_requests < u64::MAX,
        ensures
            final(self).backends@ == old(self).backends@.update(
                index as int,
                final(self).backends@[index as int],
            ),
            final(self).backends@[index as int] == (Backend {
                ewma: final(self).backends@[index as int].ewma,
                ..old(self).backends@[index as int]
            }),
            final(self).backends@[index as int].ewma == (crate::ewma::PeakEwma {
                active_requests: (old(self).backends@[index as int].ewma.active_requests + 1) as u64,
                ..old(self).backends@[index as int].ewma
            }),
    {
        let mut b = self.backends[index];
        let guard = b.ewma.increment_active();
        self.backends[index] = b;
        guard
    }

    /// Lower the in-flight gauge of the backend at `index`, consuming the
    /// guard that was issued for the request.
    pub fn release_request_at(&mut self, index: usize, guard: ActiveRequestGuard)
        requires
            index < old(self).backends@.len(),
            old(self).backends@[index as int].ewma.active_requests >= 1,
        ensures
            final(self).backends@ == old(self).backends@.update(
                index as int,
                final(self).backends@[index as int],
            ),
            final(self).backends@[index as int] == (Backend {
                ewma: final(self).backends@[index as int].ewma,
                ..old(self).backends@[index as int]
            }),
            final(self).backends@[index as int].ewma == (crate::ewma::PeakEwma {
                active_requests: (old(self).backends@[index as int].ewma.active_requests - 1) as u64,
                ..old(self).backends@[index as int].ewma
            }),
    {
        let mut b = self.backends[index];
        b.ewma.release_active(guard);
        self.backends[index] = b;
    }
}

} // verus!
