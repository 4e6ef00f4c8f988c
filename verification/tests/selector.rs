// Tests of the Peak-EWMA selector: minimal score wins, queue depth
// penalizes raw latency, ties go to the smallest id.

use vortex::backend::{Backend, BackendId, Endpoint};
use vortex::routing::RoutingTable;
use vortex::selector::select_best_backend;

fn backend(id: u32, port: u16) -> Backend {
    Backend::new(BackendId(id), Endpoint { ip: 0x7f000001, port })
}

#[test]
fn test_selection_prefers_idle_over_fast_but_busy() {
    // A: ewma 10ms, no active requests  => score (10 + 1) * (0 + 1) = 11
    let mut a = backend(1, 9090);
    a.ewma.ewma = 10_000;

    // B: ewma 5ms, three active requests => score (5 + 1) * (3 + 1) = 24
    let mut b = backend(2, 9091);
    b.ewma.ewma = 5_000;
    b.ewma.active_requests = 3;

    let table = RoutingTable::new(vec![a, b]);
    // A is chosen despite its higher raw latency.
    assert_eq!(select_best_backend(&table), Some(0));
}

#[test]
fn test_selection_skips_unhealthy() {
    let mut fast_but_down = backend(1, 9090);
    fast_but_down.ewma.ewma = 1_000;
    fast_but_down.set_healthy(false);

    let mut slow_but_up = backend(2, 9091);
    slow_but_up.ewma.ewma = 400_000;

    let table = RoutingTable::new(vec![fast_but_down, slow_but_up]);
    assert_eq!(select_best_backend(&table), Some(1));
}

#[test]
fn test_selection_tie_breaks_on_smallest_id() {
    // Identical scores; ids out of positional order.
    let mut high_id = backend(7, 9090);
    high_id.ewma.ewma = 20_000;
    let mut low_id = backend(3, 9091);
    low_id.ewma.ewma = 20_000;

    let table = RoutingTable::new(vec![high_id, low_id]);
    // The smaller id wins even though it comes second.
    assert_eq!(select_best_backend(&table), Some(1));
}

#[test]
fn test_selection_none_when_empty() {
    let table = RoutingTable::new(vec![]);
    assert_eq!(select_best_backend(&table), None);
}

#[test]
fn test_selection_strict_minimum() {
    let mut a = backend(1, 9090);
    a.ewma.ewma = 30_000;
    let mut b = backend(2, 9091);
    b.ewma.ewma = 8_000;
    let mut c = backend(3, 9092);
    c.ewma.ewma = 90_000;

    let table = RoutingTable::new(vec![a, b, c]);
    assert_eq!(select_best_backend(&table), Some(1));
}
