use tap_tempo::estimator::pow10_exec;
use tap_tempo::text::fixed_point_text;
use tap_tempo::{is_quit, Bpm, Params, TapResult, TempoEstimator};

const MS: u64 = 1_000_000;
const SEC: u64 = 1_000_000_000;

fn estimator(reset_time: u64, sample_size: usize) -> TempoEstimator {
    TempoEstimator::new(Params::new(0, reset_time, sample_size))
}

fn estimate(r: TapResult) -> Bpm {
    match r {
        TapResult::Estimate(b) => b,
        TapResult::InsufficientData => panic!("expected an estimate"),
    }
}

#[test]
fn params_are_clamped_into_range() {
    let p = Params::new(0, 0, 0);
    assert_eq!(p, Params { precision: 0, reset_time: 1, sample_size: 1 });
    let p = Params::new(9, 3, 7);
    assert_eq!(p, Params { precision: 5, reset_time: 3, sample_size: 7 });
    let p = Params::new(usize::MAX, u64::MAX, usize::MAX);
    assert_eq!(p.precision, 5);
    assert_eq!(p.reset_time, u64::MAX);
    assert_eq!(p.sample_size, usize::MAX);
    let p = Params::new(5, 1, 1);
    assert_eq!(p, Params { precision: 5, reset_time: 1, sample_size: 1 });
}

#[test]
fn standard_params() {
    assert_eq!(Params::standard(), Params { precision: 0, reset_time: 5, sample_size: 5 });
}

#[test]
fn window_never_exceeds_sample_size() {
    for size in 1..5usize {
        let mut e = estimator(5, size);
        for k in 0..20u64 {
            e.record_tap(k * 300 * MS);
            assert!(e.len() <= size);
        }
        assert_eq!(e.len(), size);
    }
}

#[test]
fn fewer_than_two_taps_give_no_estimate() {
    let mut e = estimator(5, 5);
    assert_eq!(e.estimate(), TapResult::InsufficientData);
    assert_eq!(e.record_tap(42 * SEC), TapResult::InsufficientData);
    assert_eq!(e.len(), 1);
}

#[test]
fn two_taps_one_second_apart_give_120() {
    let mut e = estimator(5, 5);
    assert_eq!(e.record_tap(0), TapResult::InsufficientData);
    let b = estimate(e.record_tap(1000 * MS));
    assert_eq!(b, Bpm { sample_count: 2, elapsed_nanos: 1000 * MS });
    assert_eq!(b.rounded(0), 120);
    assert_eq!(b.fixed_parts(3), (120, 0));
}

#[test]
fn five_taps_half_a_second_apart_give_150() {
    let mut e = estimator(5, 5);
    let mut last = TapResult::InsufficientData;
    for k in 0..5u64 {
        last = e.record_tap(k * 500 * MS);
    }
    let b = estimate(last);
    assert_eq!(b.sample_count, 5);
    assert_eq!(b.elapsed_nanos, 2000 * MS);
    assert_eq!(b.rounded(0), 150);
}

#[test]
fn sixth_tap_evicts_the_oldest() {
    let mut e = estimator(5, 5);
    for k in 0..6u64 {
        e.record_tap(k * 500 * MS);
    }
    assert_eq!(e.taps(), vec![500 * MS, 1000 * MS, 1500 * MS, 2000 * MS, 2500 * MS]);
    let b = estimate(e.estimate());
    assert_eq!(b, Bpm { sample_count: 5, elapsed_nanos: 2000 * MS });
}

#[test]
fn idle_gap_restarts_the_window() {
    let mut e = estimator(5, 5);
    e.record_tap(0);
    e.record_tap(500 * MS);
    e.record_tap(1000 * MS);
    assert!(!e.reset_time_elapsed(5999 * MS));
    assert!(e.reset_time_elapsed(6000 * MS));
    assert_eq!(e.record_tap(7000 * MS), TapResult::InsufficientData);
    assert_eq!(e.taps(), vec![7000 * MS]);
}

#[test]
fn gap_just_under_the_reset_time_keeps_the_window() {
    let mut e = estimator(2, 5);
    e.record_tap(0);
    let b = estimate(e.record_tap(2 * SEC - 1));
    assert_eq!(b.sample_count, 2);
    assert_eq!(e.record_tap(4 * SEC), TapResult::InsufficientData);
    assert_eq!(e.len(), 1);
}

#[test]
fn estimate_is_pure() {
    let mut e = estimator(5, 5);
    e.record_tap(0);
    e.record_tap(400 * MS);
    e.record_tap(900 * MS);
    let first = e.estimate();
    let second = e.estimate();
    assert_eq!(first, second);
    assert_eq!(e.len(), 3);
    assert_eq!(estimate(first).rounded(1), 2000);
}

#[test]
fn equal_timestamps_give_no_estimate() {
    let mut e = estimator(5, 5);
    e.record_tap(3 * SEC);
    assert_eq!(e.record_tap(3 * SEC), TapResult::InsufficientData);
    assert_eq!(e.len(), 2);
}

#[test]
fn backwards_clock_is_held_at_the_last_tap() {
    let mut e = estimator(5, 5);
    e.record_tap(5 * SEC);
    assert_eq!(e.record_tap(4 * SEC), TapResult::InsufficientData);
    assert_eq!(e.taps(), vec![5 * SEC, 5 * SEC]);
    let b = estimate(e.record_tap(6 * SEC));
    assert_eq!(b, Bpm { sample_count: 3, elapsed_nanos: SEC });
}

#[test]
fn sub_millisecond_time_is_kept() {
    let b = Bpm { sample_count: 2, elapsed_nanos: 1000 * MS + 500_000 };
    assert_eq!(b.rounded(2), 11994);
    assert_eq!(b.fixed_parts(2), (119, 94));
    assert_eq!(b.fixed_parts(0), (120, 0));
}

#[test]
fn rounding_goes_half_up() {
    // 2 taps over 0.8 s: exactly 150 bpm; over 960 ms: exactly 125 bpm.
    let b = Bpm { sample_count: 2, elapsed_nanos: 960 * MS };
    assert_eq!(b.rounded(0), 125);
    // 3 taps over 1.6 s: 112.5 bpm, which rounds up to 113.
    let b = Bpm { sample_count: 3, elapsed_nanos: 1600 * MS };
    assert_eq!(b.rounded(0), 113);
    assert_eq!(b.fixed_parts(1), (112, 5));
    // 2 taps over 0.7 s: 171.428571... bpm.
    let b = Bpm { sample_count: 2, elapsed_nanos: 700 * MS };
    assert_eq!(b.fixed_parts(5), (171, 42857));
    assert_eq!(b.fixed_parts(4), (171, 4286));
}

#[test]
fn largest_window_does_not_overflow() {
    let b = Bpm { sample_count: usize::MAX, elapsed_nanos: 1 };
    let expected = (usize::MAX as u128) * 60_000_000_000 * 100_000;
    assert_eq!(b.rounded(5), expected);
}

#[test]
fn powers_of_ten() {
    assert_eq!(pow10_exec(0), 1);
    assert_eq!(pow10_exec(3), 1000);
    assert_eq!(pow10_exec(5), 100_000);
}

#[test]
fn reset_empties_the_window() {
    let mut e = estimator(5, 5);
    e.record_tap(0);
    e.record_tap(SEC);
    e.reset();
    assert_eq!(e.len(), 0);
    assert_eq!(e.params(), Params::new(0, 5, 5));
}

#[test]
fn quit_only_on_a_lone_q() {
    assert!(is_quit("q"));
    assert!(!is_quit(""));
    assert!(!is_quit("Q"));
    assert!(!is_quit("qq"));
    assert!(!is_quit(" q"));
}

fn text(chars: Vec<char>) -> String {
    chars.into_iter().collect()
}

#[test]
fn fixed_point_text_of_values() {
    assert_eq!(text(fixed_point_text(0, 0)), "0");
    assert_eq!(text(fixed_point_text(120, 0)), "120");
    assert_eq!(text(fixed_point_text(1125, 1)), "112.5");
    assert_eq!(text(fixed_point_text(5, 2)), "0.05");
    assert_eq!(text(fixed_point_text(17142857, 5)), "171.42857");
    assert_eq!(text(fixed_point_text(u128::MAX, 0)), u128::MAX.to_string());
}

#[test]
fn tempo_text_follows_precision() {
    let b = Bpm { sample_count: 2, elapsed_nanos: 1000 * MS };
    assert_eq!(text(b.to_text(0)), "120");
    assert_eq!(text(b.to_text(2)), "120.00");
    let b = Bpm { sample_count: 3, elapsed_nanos: 1600 * MS };
    assert_eq!(text(b.to_text(0)), "113");
    assert_eq!(text(b.to_text(1)), "112.5");
    assert_eq!(text(b.to_text(3)), "112.500");
    let b = Bpm { sample_count: 2, elapsed_nanos: 1000 * MS + 500_000 };
    assert_eq!(text(b.to_text(5)), "119.94003");
}
