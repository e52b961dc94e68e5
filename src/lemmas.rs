//! Laws that hold of every configuration and every sequence of taps.
use vstd::prelude::*;

use crate::config::{clamped, Params};
use crate::estimator::{
    after_tap, elapsed_secs, ordered, replay, resets, result_of, TapResult, TempoEstimator,
};

verus! {

/// Whatever raw values a configuration is built from, its precision is at
/// most five digits and its reset time and sample size are at least one.
pub proof fn lemma_clamped_in_range(precision: usize, reset_time: u64, sample_size: usize)
    ensures
        clamped(precision, reset_time, sample_size).wf(),
        clamped(precision, reset_time, sample_size).precision <= 5,
        clamped(precision, reset_time, sample_size).reset_time >= 1,
        clamped(precision, reset_time, sample_size).sample_size >= 1,
{
}

/// One tap keeps a window ordered and within `sample_size` taps.
pub proof fn lemma_tap_keeps_bounds(w: Seq<u64>, now: u64, p: Params)
    requires
        w.len() <= p.sample_size,
        ordered(w),
    ensures
        after_tap(w, now, p).len() <= p.sample_size,
        ordered(after_tap(w, now, p)),
{
    let base = if resets(w, now, p.reset_time) { Seq::<u64>::empty() } else { w };
    let stamp = if w.len() > 0 && now < w.last() { w.last() } else { now };
    assert(ordered(base.push(stamp)));
}

/// After any sequence of taps, the window holds at most `sample_size` taps
/// and stays ordered from oldest to newest.
pub proof fn lemma_replay_bounded(w: Seq<u64>, taps: Seq<u64>, p: Params)
    requires
        w.len() <= p.sample_size,
        ordered(w),
    ensures
        replay(w, taps, p).len() <= p.sample_size,
        ordered(replay(w, taps, p)),
    decreases taps.len(),
{
    if taps.len() > 0 {
        lemma_tap_keeps_bounds(w, taps[0], p);
        lemma_replay_bounded(after_tap(w, taps[0], p), taps.drop_first(), p);
    }
}

/// Taps never lengthen the window by more than one each.
proof fn lemma_replay_len(w: Seq<u64>, taps: Seq<u64>, p: Params)
    ensures
        replay(w, taps, p).len() <= w.len() + taps.len(),
    decreases taps.len(),
{
    if taps.len() > 0 {
        lemma_replay_len(after_tap(w, taps[0], p), taps.drop_first(), p);
    }
}

/// From an empty window, fewer than two taps give too little data.
pub proof fn lemma_fewer_than_two_taps(taps: Seq<u64>, p: Params)
    requires
        taps.len() < 2,
    ensures
        result_of(replay(Seq::<u64>::empty(), taps, p)) == TapResult::InsufficientData,
{
    lemma_replay_len(Seq::<u64>::empty(), taps, p);
}

/// A tap into a full window that does not reset it drops the oldest tap and
/// keeps the others, in order, before the new one.
pub proof fn lemma_full_window_evicts_oldest(w: Seq<u64>, now: u64, p: Params)
    requires
        p.wf(),
        w.len() == p.sample_size,
        now >= w.last(),
        !resets(w, now, p.reset_time),
    ensures
        after_tap(w, now, p) == w.drop_first().push(now),
        after_tap(w, now, p).len() == p.sample_size,
{
    assert(w.push(now).drop_first() =~= w.drop_first().push(now));
}

/// A tap that comes `reset_time` whole seconds or more after the most recent
/// one leaves that tap alone in the window, with too little data.
pub proof fn lemma_idle_gap_restarts(w: Seq<u64>, now: u64, p: Params)
    requires
        p.wf(),
        w.len() > 0,
        now >= w.last(),
        elapsed_secs(w.last(), now) >= p.reset_time,
    ensures
        after_tap(w, now, p) == seq![now],
        result_of(after_tap(w, now, p)) == TapResult::InsufficientData,
{
    assert(Seq::<u64>::empty().push(now) =~= seq![now]);
}

/// The estimate is a function of the window alone: two estimators whose
/// windows hold the same taps give the same estimate, and so does one
/// estimator asked twice.
pub proof fn lemma_estimate_depends_on_window(a: TempoEstimator, b: TempoEstimator)
    requires
        a.window() == b.window(),
    ensures
        result_of(a.window()) == result_of(b.window()),
{
}

} // verus!
