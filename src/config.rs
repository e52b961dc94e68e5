//! Validated configuration of a tempo estimator.
use vstd::prelude::*;

verus! {

/// Largest number of decimal digits shown after the point.
pub const MAX_PRECISION: usize = 5;

/// Smallest idle gap, in whole seconds, that resets the window.
pub const MIN_RESET_TIME: u64 = 1;

/// Smallest number of taps that the window keeps.
pub const MIN_SAMPLE_SIZE: usize = 1;

/// Configuration of a tempo estimator, fixed once it is built.
#[derive(Clone, Copy, Debug, PartialEq, Eq, Structural)]
pub struct Params {
    /// Number of decimal digits shown after the point.
    pub precision: usize,
    /// Idle gap, in whole seconds, at or beyond which the window restarts.
    pub reset_time: u64,
    /// Largest number of taps kept in the window.
    pub sample_size: usize,
}

/// The configuration that raw values give once each is clamped into range.
pub open spec fn clamped(precision: usize, reset_time: u64, sample_size: usize) -> Params {
    Params {
        precision: if precision <= MAX_PRECISION { precision } else { MAX_PRECISION },
        reset_time: if reset_time >= MIN_RESET_TIME { reset_time } else { MIN_RESET_TIME },
        sample_size: if sample_size >= MIN_SAMPLE_SIZE { sample_size } else { MIN_SAMPLE_SIZE },
    }
}

impl Params {
    /// Every value lies in its allowed range.
    pub open spec fn wf(&self) -> bool {
        &&& self.precision <= MAX_PRECISION
        &&& self.reset_time >= MIN_RESET_TIME
        &&& self.sample_size >= MIN_SAMPLE_SIZE
    }

    /// Builds a configuration from raw values, clamping each into range:
    /// the precision is capped at five digits, the reset time and the
    /// sample size are raised to at least one.
    pub fn new(precision: usize, reset_time: u64, sample_size: usize) -> (r: Params)
        ensures
            r.wf(),
            r == clamped(precision, reset_time, sample_size),
    {
        Params {
            precision: if precision <= MAX_PRECISION { precision } else { MAX_PRECISION },
            reset_time: if reset_time >= MIN_RESET_TIME { reset_time } else { MIN_RESET_TIME },
            sample_size: if sample_size >= MIN_SAMPLE_SIZE { sample_size } else { MIN_SAMPLE_SIZE },
        }
    }

    /// The configuration used when nothing is given: whole beats per
    /// minute, a five-second reset time and a window of five taps.
    pub fn standard() -> (r: Params)
        ensures
            r.wf(),
            r.precision == 0,
            r.reset_time == 5,
            r.sample_size == 5,
    {
        Params::new(0, 5, 5)
    }
}

} // verus!
