// Tests of the Peak-EWMA tracker: peak jumps, graceful decay, the in-flight
// gauge and the score. Latencies are in fixed-point units of one thousandth
// of a millisecond, so 50 ms is written 50_000.

use vortex::ewma::PeakEwma;

#[test]
fn test_peak_ewma_instant_peak_tracking() {
    let mut ewma = PeakEwma::new(50_000, 500);

    // A sudden latency spike to 500ms should instantly jump the EWMA to 500ms
    ewma.observe_latency(500_000);
    assert_eq!(ewma.get_ewma(), 500_000);
}

#[test]
fn test_peak_ewma_graceful_decay() {
    // Alpha 0.5 means 50% decay per observation
    let mut ewma = PeakEwma::new(100_000, 500);

    // Latency drops back to 50ms: (50 * 0.5) + (100 * 0.5) = 75
    ewma.observe_latency(50_000);
    assert_eq!(ewma.get_ewma(), 75_000);

    // Another 50ms drops it further: (50 * 0.5) + (75 * 0.5) = 62.5
    ewma.observe_latency(50_000);
    assert_eq!(ewma.get_ewma(), 62_500);
}

#[test]
fn test_active_request_guard() {
    let mut ewma = PeakEwma::new(10_000, 500);
    assert_eq!(ewma.active_requests, 0);

    let guard = ewma.increment_active();
    assert_eq!(ewma.active_requests, 1);

    // Score should be (10 + 1) * (1 + 1) = 22, in latency units
    assert_eq!(ewma.calculate_score(), 22_000);

    // Guard released, should be 0 again
    ewma.release_active(guard);
    assert_eq!(ewma.active_requests, 0);
    // Score should be (10 + 1) * (0 + 1) = 11, in latency units
    assert_eq!(ewma.calculate_score(), 11_000);
}

#[test]
fn test_ewma_stays_positive_and_below_peak() {
    let mut ewma = PeakEwma::new(1, 999);
    let samples: Vec<u64> = vec![0, 1, 5_000, 3, 0, 0, 1_000_000, 17, 0];
    let mut peak: u64 = 1;
    for s in samples {
        if s > peak {
            peak = s;
        }
        ewma.observe_latency(s);
        let current = ewma.get_ewma();
        assert!(current > 0);
        assert!(current <= peak);
    }
}

#[test]
fn test_ewma_equal_sample_is_fixed_point() {
    let mut ewma = PeakEwma::new(40_000, 250);
    ewma.observe_latency(40_000);
    assert_eq!(ewma.get_ewma(), 40_000);
}

#[test]
fn test_gauge_balanced_across_interleaved_releases() {
    let mut ewma = PeakEwma::new(20_000, 500);
    let g1 = ewma.increment_active();
    let g2 = ewma.increment_active();
    let g3 = ewma.increment_active();
    assert_eq!(ewma.active_requests, 3);
    // Release out of order: the gauge only counts.
    ewma.release_active(g2);
    ewma.release_active(g3);
    ewma.release_active(g1);
    assert_eq!(ewma.active_requests, 0);
}
