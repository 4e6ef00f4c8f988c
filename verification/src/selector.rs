//! Load-balancing selector: choose the best backend for a new request.
//!
//! The selector filters the routing table to the healthy backends and picks
//! the one with the smallest Peak-EWMA score. Ties go to the smallest
//! backend id, and a full tie keeps the earliest position, so the choice is
//! deterministic.

use vstd::prelude::*;
use crate::backend::Backend;
use crate::ewma::score_spec;
use crate::routing::RoutingTable;

verus! {

/// The score of the backend at position `i` of a snapshot.
pub open spec fn score_at(s: Seq<Backend>, i: int) -> int {
    score_spec(s[i].ewma.ewma as int, s[i].ewma.active_requests as int)
}

/// Whether the backend at position `i` beats the one at position `j`:
/// strictly lower score, or equal score and smaller id, or equal score and
/// id and earlier position. Exactly one of `preferred(s, i, j)` and
/// `preferred(s, j, i)` holds for distinct `i` and `j`, so the selector's
/// choice is pinned down.
pub open spec fn preferred(s: Seq<Backend>, i: int, j: int) -> bool {
    ||| score_at(s, i) < score_at(s, j)
    ||| (score_at(s, i) == score_at(s, j) && s[i].id.0 < s[j].id.0)
    ||| (score_at(s, i) == score_at(s, j) && s[i].id.0 == s[j].id.0 && i < j)
}

/// Select the optimal backend: among the healthy ones, the position with the
/// minimal score, ties broken by smallest id and then by earliest position.
/// Returns `None` exactly when no backend is healthy.
pub fn select_best_backend(table: &RoutingTable) -> (r: Option<usize>)
    requires
        table.wf(),
    ensures
        match r {
            Some(i) => {
                &&& i < table.backends@.len()
                &&& table.backends@[i as int].healthy
                &&& forall|j: int|
                    0 <= j < table.backends@.len() && (#[trigger] table.backends@[j]).healthy && j
                        != i as int ==> preferred(table.backends@, i as int, j)
            },
            None => forall|j: int|
                0 <= j < table.backends@.len() ==> !(#[trigger] table.backends@[j]).healthy,
        },
{
    let ghost s = table.backends@;
    let mut best: Option<usize> = None;
    let mut i: usize = 0;
    while i < table.backends.len()
        invariant
            table.wf(),
            s == table.backends@,
            i <= s.len(),
            match best {
                Some(b) => {
                    &&& (b as int) < i
                    &&& s[b as int].healthy
                    &&& forall|j: int|
                        0 <= j < i && (#[trigger] s[j]).healthy && j != b as int ==> preferred(
                            s,
                            b as int,
                            j,
                        )
                },
                None => forall|j: int| 0 <= j < i ==> !(#[trigger] s[j]).healthy,
            },
        decreases s.len() - i,
    {
        if table.backends[i].healthy {
            match best {
                None => {
                    best = Some(i);
                },
                Some(b) => {
                    proof {
                        assert(table.backends@[i as int].wf());
                        assert(table.backends@[b as int].wf());
                    }
                    let score_i = table.backends[i].ewma.calculate_score();
                    let score_b = table.backends[b].ewma.calculate_score();
                    if score_i < score_b || (score_i == score_b && table.backends[i].id.0
                        < table.backends[b].id.0) {
                        best = Some(i);
                    }
                },
            }
        }
        i = i + 1;
    }
    best
}

} // verus!

