//! Tap-tempo estimation: a bounded rolling window of tap timestamps, an
//! inactivity reset policy, and an exact beats-per-minute estimate.
pub mod config;
pub mod estimator;
pub mod input;
pub mod lemmas;
pub mod text;

pub use config::Params;
pub use estimator::{Bpm, TapResult, TempoEstimator};
pub use input::is_quit;
