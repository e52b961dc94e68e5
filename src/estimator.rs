//! The rolling window of tap timestamps and the tempo estimate drawn from it.
use std::collections::VecDeque;
use vstd::prelude::*;

use crate::config::Params;
use crate::lemmas::lemma_tap_keeps_bounds;

verus! {

/// Nanoseconds in one second.
pub const NANOS_PER_SEC: u64 = 1_000_000_000;

/// Nanoseconds in one minute: the numerator of a beats-per-minute rate
/// measured in nanoseconds.
pub const NANOS_PER_MINUTE: u128 = 60_000_000_000;

/// Whole seconds from `earlier` to `later`, both in nanoseconds; a clock
/// that went backwards counts as no time at all.
pub open spec fn elapsed_secs(earlier: u64, later: u64) -> nat {
    if later >= earlier {
        ((later - earlier) / (NANOS_PER_SEC as int)) as nat
    } else {
        0
    }
}

/// A tap at `now` restarts tracking: the window holds a tap, and at least
/// `reset_time` whole seconds have gone by since the most recent one.
pub open spec fn resets(w: Seq<u64>, now: u64, reset_time: u64) -> bool {
    w.len() > 0 && elapsed_secs(w.last(), now) >= reset_time
}

/// The timestamp that a tap at `now` is stored with: `now`, raised to the
/// most recent tap if the clock went backwards, so that the window stays
/// ordered.
pub open spec fn stamp_of(w: Seq<u64>, now: u64) -> u64 {
    if w.len() > 0 && now < w.last() {
        w.last()
    } else {
        now
    }
}

/// The window after a tap at `now`: cleared first if the tap resets
/// tracking, then extended by the tap, then cut back to `sample_size` by
/// dropping the oldest entry.
pub open spec fn after_tap(w: Seq<u64>, now: u64, p: Params) -> Seq<u64> {
    let base = if resets(w, now, p.reset_time) { Seq::<u64>::empty() } else { w };
    let grown = base.push(stamp_of(w, now));
    if grown.len() > p.sample_size {
        grown.drop_first()
    } else {
        grown
    }
}

/// The window after a whole sequence of taps, the first applied first.
pub open spec fn replay(w: Seq<u64>, taps: Seq<u64>, p: Params) -> Seq<u64>
    decreases taps.len(),
{
    if taps.len() == 0 {
        w
    } else {
        replay(after_tap(w, taps[0], p), taps.drop_first(), p)
    }
}

/// Timestamps never decrease from oldest to newest.
pub open spec fn ordered(w: Seq<u64>) -> bool {
    forall|i: int, j: int| 0 <= i <= j < w.len() ==> w[i] <= w[j]
}

/// A measured tempo: `sample_count` taps spread over `elapsed_nanos`
/// nanoseconds, that is `sample_count * 60_000_000_000 / elapsed_nanos`
/// beats per minute, held exactly. The rate multiplies by the number of
/// taps, not by the number of intervals between them (one fewer): this is
/// deliberate and differs from the textbook tap-tempo formula.
#[derive(Clone, Copy, Debug, PartialEq, Eq, Structural)]
pub struct Bpm {
    pub sample_count: usize,
    pub elapsed_nanos: u64,
}

/// Ten to the power `p`.
pub open spec fn pow10(p: nat) -> nat
    decreases p,
{
    if p == 0 {
        1
    } else {
        10 * pow10((p - 1) as nat)
    }
}

/// `count * 60_000_000_000 / elapsed` beats per minute, scaled by ten to the
/// power `precision` and rounded to the nearest integer, halves upwards.
pub open spec fn rounded_scaled(count: nat, elapsed: nat, precision: nat) -> nat {
    ((2 * count * NANOS_PER_MINUTE * pow10(precision) + elapsed) as int / (2 * elapsed) as int) as nat
}

proof fn lemma_pow10_small(p: nat)
    requires
        p <= 5,
    ensures
        1 <= pow10(p) <= 100_000,
        p < 5 ==> pow10(p) <= 10_000,
{
    reveal_with_fuel(pow10, 6);
}

/// Ten to the power `p`, for the precisions a configuration allows.
pub fn pow10_exec(p: usize) -> (r: u128)
    requires
        p <= crate::config::MAX_PRECISION,
    ensures
        r == pow10(p as nat),
        1 <= r <= 100_000,
{
    let mut r: u128 = 1;
    let mut i: usize = 0;
    while i < p
        invariant
            i <= p <= 5,
            r == pow10(i as nat),
        decreases p - i,
    {
        proof {
            lemma_pow10_small(i as nat);
        }
        r = r * 10;
        i = i + 1;
    }
    proof {
        lemma_pow10_small(i as nat);
    }
    r
}

impl Bpm {
    /// The tempo in beats per minute, scaled by ten to the power `precision`
    /// and rounded to the nearest integer, halves upwards: with a precision
    /// of one, 125.25 beats per minute gives 1253.
    pub fn rounded(&self, precision: usize) -> (r: u128)
        requires
            self.elapsed_nanos > 0,
            precision <= crate::config::MAX_PRECISION,
        ensures
            r == rounded_scaled(
                self.sample_count as nat,
                self.elapsed_nanos as nat,
                precision as nat,
            ),
    {
        let scale = pow10_exec(precision);
        let count = self.sample_count as u128;
        let den = self.elapsed_nanos as u128;
        proof {
            assert(count * NANOS_PER_MINUTE * scale <= 0x1_0000_0000_0000_0000 * 60_000_000_000
                * 100_000) by (nonlinear_arith)
                requires
                    count < 0x1_0000_0000_0000_0000,
                    scale <= 100_000,
            ;
            assert(2 * count * NANOS_PER_MINUTE * scale == 2 * (count * NANOS_PER_MINUTE * scale))
                by (nonlinear_arith);
        }
        let num = count * NANOS_PER_MINUTE * scale;
        (2 * num + den) / (2 * den)
    }

    /// The rounded tempo split at the decimal point: the whole beats per
    /// minute, and the `precision` digits after the point as one integer.
    pub fn fixed_parts(&self, precision: usize) -> (r: (u128, u128))
        requires
            self.elapsed_nanos > 0,
            precision <= crate::config::MAX_PRECISION,
        ensures
            r.0 == rounded_scaled(
                self.sample_count as nat,
                self.elapsed_nanos as nat,
                precision as nat,
            ) / pow10(precision as nat),
            r.1 == rounded_scaled(
                self.sample_count as nat,
                self.elapsed_nanos as nat,
                precision as nat,
            ) % pow10(precision as nat),
    {
        let scale = pow10_exec(precision);
        let v = self.rounded(precision);
        (v / scale, v % scale)
    }
}

/// What a tap yields.
#[derive(Clone, Copy, Debug, PartialEq, Eq, Structural)]
pub enum TapResult {
    /// Fewer than two taps, or taps with no time between them: no interval
    /// to measure a tempo from.
    InsufficientData,
    /// A tempo measured over the whole window.
    Estimate(Bpm),
}

/// The result that a window gives: an estimate over all of its taps, from the
/// oldest to the newest, when there are at least two of them and time has
/// passed between those two; otherwise too little data.
pub open spec fn result_of(w: Seq<u64>) -> TapResult {
    if w.len() >= 2 && w.last() > w[0] {
        TapResult::Estimate(
            Bpm { sample_count: w.len() as usize, elapsed_nanos: (w.last() - w[0]) as u64 },
        )
    } else {
        TapResult::InsufficientData
    }
}

/// Estimates a tempo from the times of taps.
#[derive(Debug)]
pub struct TempoEstimator {
    params: Params,
    hits: VecDeque<u64>,
}

impl TempoEstimator {
    /// The configuration the estimator was built with.
    pub closed spec fn config(&self) -> Params {
        self.params
    }

    /// The taps in the window, oldest first, in nanoseconds.
    pub closed spec fn window(&self) -> Seq<u64> {
        self.hits@
    }

    /// The window is ordered and holds at most `sample_size` taps.
    pub open spec fn wf(&self) -> bool {
        &&& self.window().len() <= self.config().sample_size
        &&& ordered(self.window())
    }

    /// An estimator with an empty window.
    pub fn new(params: Params) -> (r: TempoEstimator)
        ensures
            r.wf(),
            r.config() == params,
            r.window() == Seq::<u64>::empty(),
    {
        TempoEstimator { params, hits: VecDeque::new() }
    }

    /// The configuration the estimator was built with.
    pub fn params(&self) -> (r: Params)
        ensures
            r == self.config(),
    {
        self.params
    }

    /// Number of taps in the window.
    pub fn len(&self) -> (r: usize)
        ensures
            r == self.window().len(),
    {
        self.hits.len()
    }

    /// The taps in the window, oldest first.
    pub fn taps(&self) -> (r: Vec<u64>)
        ensures
            r@ == self.window(),
    {
        let mut out: Vec<u64> = Vec::new();
        let mut i: usize = 0;
        while i < self.hits.len()
            invariant
                i <= self.hits@.len(),
                out@ == self.hits@.subrange(0, i as int),
            decreases self.hits@.len() - i,
        {
            out.push(self.hits[i]);
            i = i + 1;
        }
        assert(out@ == self.hits@);
        out
    }

    /// Whether a tap at `now` (in nanoseconds) comes at least `reset_time`
    /// whole seconds after the most recent tap in the window.
    pub fn reset_time_elapsed(&self, now: u64) -> (r: bool)
        ensures
            r == resets(self.window(), now, self.config().reset_time),
    {
        let n = self.hits.len();
        if n == 0 {
            false
        } else {
            let last = self.hits[n - 1];
            let gap: u64 = if now >= last { now - last } else { 0 };
            gap / NANOS_PER_SEC >= self.params.reset_time
        }
    }

    /// The estimate over the current window; the window is left as it is.
    pub fn estimate(&self) -> (r: TapResult)
        ensures
            r == result_of(self.window()),
    {
        let n = self.hits.len();
        if n < 2 {
            TapResult::InsufficientData
        } else {
            let first = self.hits[0];
            let last = self.hits[n - 1];
            if last > first {
                TapResult::Estimate(Bpm { sample_count: n, elapsed_nanos: last - first })
            } else {
                TapResult::InsufficientData
            }
        }
    }

    /// Records a tap at `now` (in nanoseconds from any fixed origin) and
    /// returns the estimate over the window that results.
    ///
    /// The window is cleared first when at least `reset_time` whole seconds
    /// have gone by since the most recent tap; the tap is then appended, and
    /// the oldest tap dropped if the window holds more than `sample_size`.
    pub fn record_tap(&mut self, now: u64) -> (r: TapResult)
        requires
            old(self).wf(),
        ensures
            final(self).wf(),
            final(self).config() == old(self).config(),
            final(self).window() == after_tap(old(self).window(), now, old(self).config()),
            r == result_of(final(self).window()),
    {
        let ghost w = self.hits@;
        let n = self.hits.len();
        let stamp: u64 = if n > 0 && now < self.hits[n - 1] { self.hits[n - 1] } else { now };
        if self.reset_time_elapsed(now) {
            self.hits.clear();
        }
        self.hits.push_back(stamp);
        if self.hits.len() > self.params.sample_size {
            self.hits.pop_front();
        }
        proof {
            lemma_tap_keeps_bounds(w, now, self.params);
        }
        self.estimate()
    }

    /// Empties the window.
    pub fn reset(&mut self)
        requires
            old(self).wf(),
        ensures
            final(self).wf(),
            final(self).config() == old(self).config(),
            final(self).window() == Seq::<u64>::empty(),
    {
        self.hits.clear();
    }
}

} // verus!
