//! A streaming exponentially-weighted recursive moving average.
//!
//! A smoother is constructed with a positive `period`, derives the fixed
//! smoothing weight `1 / (period + 1)`, and then takes one sample at a time:
//! the first sample after construction or a reset is returned unchanged and
//! becomes the state; every later sample is blended into the running value by
//! `weight * sample + (1 - weight) * value`. Samples and outputs are IEEE-754
//! binary64 values carried as `u64` bit patterns (see [`ieee`]).

use vstd::prelude::*;

pub mod ieee;
pub mod label;
pub mod relative_moving_average;

pub use relative_moving_average::Bar;
pub use relative_moving_average::Close;
pub use relative_moving_average::Model;
pub use relative_moving_average::RelativeMovingAverage;

verus! {

/// Why construction of a smoother can fail.
#[derive(Debug, Clone, Copy, PartialEq, Eq, Structural)]
pub enum Error {
    /// The requested period was zero; a period must be at least 1.
    InvalidParameter,
}

} // verus!
