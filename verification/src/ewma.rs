//! Peak-EWMA latency tracking.
//!
//! A Peak-EWMA tracker follows the round-trip latency of one backend. It
//! jumps instantly to any sample above the current average (so an overloaded
//! backend is detected in one observation) and decays slowly toward lower
//! samples (so one lucky fast response does not restore traffic to a
//! recovering backend).
//!
//! Latencies are carried as fixed-point integers, in thousandths of a
//! millisecond ([`crate::LATENCY_SCALE`] units per millisecond), so that the
//! decay update is exact arithmetic. The decay factor alpha is likewise a
//! fixed-point fraction with denominator [`crate::ALPHA_SCALE`].

use vstd::prelude::*;
use vstd::arithmetic::div_mod::{lemma_div_is_ordered, lemma_div_multiples_vanish_fancy};
use vstd::math::{min, max};
use crate::ALPHA_SCALE;
use crate::LATENCY_LIMIT;
use crate::LATENCY_SCALE;

verus! {

/// Ceiling division of `n` by `d`.
///
/// The decay update rounds up rather than down so that a strictly positive
/// average can never decay to zero.
pub open spec fn ceil_div(n: int, d: int) -> int
    recommends
        d > 0,
{
    (n + d - 1) / d
}

/// One Peak-EWMA update: a sample above the current average `e` replaces it
/// outright; a sample at or below it pulls the average down by the weighted
/// mean `s*(1-alpha) + e*alpha`, taken in fixed point with rounding up.
pub open spec fn ewma_step(e: int, alpha: int, s: int) -> int {
    if s > e {
        s
    } else {
        ceil_div(s * (ALPHA_SCALE - alpha) + e * alpha, ALPHA_SCALE as int)
    }
}

/// The routing cost of a backend: `(ewma + 1ms) * (active + 1)`, in the same
/// fixed-point latency units. The two `+1` terms keep the score strictly
/// positive and monotone in each factor even when the other is zero.
pub open spec fn score_spec(ewma: int, active: int) -> int {
    (ewma + LATENCY_SCALE) * (active + 1)
}

/// Latency estimator for one backend: the current Peak-EWMA average, the
/// immutable decay factor, and the gauge of in-flight requests.
#[derive(Debug, Clone, Copy)]
pub struct PeakEwma {
    /// Current average, in fixed-point latency units; always in
    /// `1 ..= LATENCY_LIMIT`.
    pub ewma: u64,
    /// Decay factor numerator; the real factor is `decay_alpha / ALPHA_SCALE`,
    /// strictly between 0 and 1.
    pub decay_alpha: u64,
    /// Number of requests currently dispatched to this backend and not yet
    /// completed.
    pub active_requests: u64,
}

impl PeakEwma {
    /// The tracker's invariant: a strictly positive, bounded average and a
    /// decay factor strictly inside (0, 1).
    pub open spec fn wf(self) -> bool {
        &&& 1 <= self.ewma <= LATENCY_LIMIT
        &&& 0 < self.decay_alpha < ALPHA_SCALE
    }

    /// Create a tracker from a strictly positive baseline latency and a decay
    /// factor strictly inside (0, 1).
    pub fn new(initial_latency: u64, decay_alpha: u64) -> (r: Self)
        requires
            1 <= initial_latency <= LATENCY_LIMIT,
            0 < decay_alpha < ALPHA_SCALE,
        ensures
            r.ewma == initial_latency,
            r.decay_alpha == decay_alpha,
            r.active_requests == 0,
            r.wf(),
    {
        PeakEwma { ewma: initial_latency, decay_alpha, active_requests: 0 }
    }

    /// Read the current average.
    pub fn get_ewma(&self) -> (r: u64)
        ensures
            r == self.ewma,
    {
        self.ewma
    }

    /// Fold one observed round-trip latency into the average: jump to a higher
    /// sample, decay toward a lower one. The in-flight gauge and the decay
    /// factor are untouched, and the average stays between the old average and
    /// the sample.
    pub fn observe_latency(&mut self, rtt: u64)
        requires
            old(self).wf(),
            rtt <= LATENCY_LIMIT,
        ensures
            final(self).ewma == ewma_step(old(self).ewma as int, old(self).decay_alpha as int, rtt as int),
            rtt > old(self).ewma ==> final(self).ewma == rtt,
            rtt <= old(self).ewma ==> final(self).ewma == ceil_div(
                rtt * (ALPHA_SCALE - old(self).decay_alpha) + old(self).ewma * old(self).decay_alpha,
                ALPHA_SCALE as int,
            ),
            min(rtt as int, old(self).ewma as int) <= final(self).ewma <= max(rtt as int, old(self).ewma as int),
            final(self).decay_alpha == old(self).decay_alpha,
            final(self).active_requests == old(self).active_requests,
            final(self).wf(),
    {
        let e = self.ewma;
        let a = self.decay_alpha;
        if rtt > e {
            self.ewma = rtt;
        } else {
            proof {
                lemma_step_in_bounds(e as int, a as int, rtt as int);
            }
            let num: u64 = rtt * (ALPHA_SCALE - a) + e * a;
            let q: u64 = (num + (ALPHA_SCALE - 1)) / ALPHA_SCALE;
            self.ewma = q;
        }
    }

    /// Raise the in-flight gauge by one and hand out the guard that stands
    /// for the dispatched request; the gauge comes back down when the guard
    /// is passed to [`Self::release_active`].
    pub fn increment_active(&mut self) -> (r: ActiveRequestGuard)
        requires
            old(self).active_requests < u64::MAX,
        ensures
            final(self).active_requests == old(self).active_requests + 1,
            final(self).ewma == old(self).ewma,
            final(self).decay_alpha == old(self).decay_alpha,
    {
        self.active_requests = self.active_requests + 1;
        ActiveRequestGuard { _private: () }
    }

    /// Lower the in-flight gauge by one, consuming the guard so that each
    /// guard is released at most once.
    pub fn release_active(&mut self, guard: ActiveRequestGuard)
        requires
            old(self).active_requests >= 1,
        ensures
            final(self).active_requests == old(self).active_requests - 1,
            final(self).ewma == old(self).ewma,
            final(self).decay_alpha == old(self).decay_alpha,
    {
        let ActiveRequestGuard { _private: () } = guard;
        self.active_requests = self.active_requests - 1;
    }

    /// The routing cost `(ewma + 1ms) * (active + 1)`; lower is better.
    pub fn calculate_score(&self) -> (r: u128)
        requires
            self.wf(),
        ensures
            r == score_spec(self.ewma as int, self.active_requests as int),
    {
        proof {
            assert((self.ewma + LATENCY_SCALE) * (self.active_requests + 1)
                <= (LATENCY_LIMIT + LATENCY_SCALE) * (u64::MAX as int + 1)) by (nonlinear_arith)
                requires
                    1 <= self.ewma <= LATENCY_LIMIT,
                    self.active_requests <= u64::MAX,
            ;
        }
        (self.ewma as u128 + LATENCY_SCALE as u128) * (self.active_requests as u128 + 1)
    }
}

/// Token for one in-flight request; produced by
/// [`PeakEwma::increment_active`] and consumed, exactly once, by
/// [`PeakEwma::release_active`].
pub struct ActiveRequestGuard {
    _private: (),
}

/// Bounds of one decay step: for a sample `s` at or below the average `e`,
/// the weighted mean rounded up stays within `[s, e]`, so in particular it
/// stays strictly positive and within the fixed-point range.
pub proof fn lemma_step_in_bounds(e: int, a: int, s: int)
    requires
        1 <= e,
        0 < a < ALPHA_SCALE,
        0 <= s <= e,
    ensures
        s <= ceil_div(s * (ALPHA_SCALE - a) + e * a, ALPHA_SCALE as int) <= e,
        1 <= ceil_div(s * (ALPHA_SCALE - a) + e * a, ALPHA_SCALE as int),
{
    let d = ALPHA_SCALE as int;
    let num = s * (d - a) + e * a;
    assert(s * d <= num && num <= e * d && 1 <= num) by (nonlinear_arith)
        requires
            0 < a < d,
            0 <= s,
            s <= e,
            1 <= e,
            num == s * (d - a) + e * a,
    ;
    lemma_div_is_ordered(1 + d - 1, num + d - 1, d);
    lemma_div_multiples_vanish_fancy(1, 0, d);
    assert(d * 1 + 0 == 1 + d - 1) by (nonlinear_arith);
    lemma_div_is_ordered(s * d + d - 1, num + d - 1, d);
    lemma_div_is_ordered(num + d - 1, e * d + d - 1, d);
    lemma_div_multiples_vanish_fancy(s, d - 1, d);
    lemma_div_multiples_vanish_fancy(e, d - 1, d);
    assert(d * s + (d - 1) == s * d + d - 1) by (nonlinear_arith);
    assert(d * e + (d - 1) == e * d + d - 1) by (nonlinear_arith);
}

/// The average that results from folding in a whole sequence of samples, in
/// order, starting from `e0`.
pub open spec fn run_ewma(e0: int, alpha: int, samples: Seq<u64>) -> int
    decreases samples.len(),
{
    if samples.len() == 0 {
        e0
    } else {
        ewma_step(run_ewma(e0, alpha, samples.drop_last()), alpha, samples.last() as int)
    }
}

/// The largest sample in a sequence, or 0 for the empty sequence.
pub open spec fn max_sample(samples: Seq<u64>) -> int
    decreases samples.len(),
{
    if samples.len() == 0 {
        0
    } else {
        max(max_sample(samples.drop_last()), samples.last() as int)
    }
}

/// Every update sequence that starts at a strictly positive average keeps the
/// average strictly positive, and never carries it above the larger of the
/// initial value and the largest sample observed so far.
pub proof fn lemma_run_ewma_bounded(e0: int, alpha: int, samples: Seq<u64>)
    requires
        1 <= e0 <= LATENCY_LIMIT,
        0 < alpha < ALPHA_SCALE,
        forall|i: int| 0 <= i < samples.len() ==> #[trigger] samples[i] <= LATENCY_LIMIT,
    ensures
        1 <= run_ewma(e0, alpha, samples),
        run_ewma(e0, alpha, samples) <= max(e0, max_sample(samples)),
    decreases samples.len(),
{
    if samples.len() > 0 {
        let prefix = samples.drop_last();
        let s = samples.last() as int;
        lemma_run_ewma_bounded(e0, alpha, prefix);
        let e = run_ewma(e0, alpha, prefix);
        if s <= e {
            lemma_step_in_bounds(e, alpha, s);
        }
    }
}

/// The in-flight gauge after a sequence of guard events: `true` marks a
/// guard being issued, `false` a guard being released.
pub open spec fn gauge_after(a0: int, events: Seq<bool>) -> int
    decreases events.len(),
{
    if events.len() == 0 {
        a0
    } else {
        gauge_after(a0, events.drop_last()) + if events.last() { 1int } else { -1int }
    }
}

/// How many events in a sequence are guard issues.
pub open spec fn count_issues(events: Seq<bool>) -> int
    decreases events.len(),
{
    if events.len() == 0 {
        0
    } else {
        count_issues(events.drop_last()) + if events.last() { 1int } else { 0int }
    }
}

/// The gauge moves by issues minus releases, whatever their order.
pub proof fn lemma_gauge_after(a0: int, events: Seq<bool>)
    ensures
        gauge_after(a0, events) == a0 + count_issues(events) - (events.len() - count_issues(events)),
    decreases events.len(),
{
    if events.len() > 0 {
        lemma_gauge_after(a0, events.drop_last());
    }
}

/// Once every guard that was issued has been released, the gauge is back at
/// its starting point, regardless of the order of releases.
pub proof fn lemma_gauge_balanced(a0: int, events: Seq<bool>)
    requires
        2 * count_issues(events) == events.len(),
    ensures
        gauge_after(a0, events) == a0,
{
    lemma_gauge_after(a0, events);
}

} // verus!

