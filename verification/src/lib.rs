//! Exact arithmetic for instants, wall-clock times and time durations.
//!
//! Every quantity is an integer: epoch nanoseconds and duration components are
//! held in 128-bit integers, so no operation of this crate loses precision.

use vstd::prelude::*;

pub mod duration;
pub mod error;
pub mod instant;
pub mod iso;
pub mod math;
pub mod normalized;
pub mod options;
pub mod parsers;
pub mod rounding;
pub mod time;

verus! {

/// Nanoseconds in one microsecond.
pub const NS_PER_MICROSECOND: i128 = 1_000;

/// Nanoseconds in one millisecond.
pub const NS_PER_MILLISECOND: i128 = 1_000_000;

/// Nanoseconds in one second.
pub const NS_PER_SECOND: i128 = 1_000_000_000;

/// Nanoseconds in one minute.
pub const NS_PER_MINUTE: i128 = 60_000_000_000;

/// Nanoseconds in one hour.
pub const NS_PER_HOUR: i128 = 3_600_000_000_000;

/// Milliseconds in one day.
pub const MS_PER_DAY: u32 = 86_400_000;

/// Nanoseconds in one day.
pub const NS_PER_DAY: u64 = 86_400_000_000_000;

/// The largest epoch nanosecond count of an instant: 10^8 days after the epoch.
pub const NS_MAX_INSTANT: i128 = 8_640_000_000_000_000_000_000;

/// The smallest epoch nanosecond count of an instant: 10^8 days before the epoch.
pub const NS_MIN_INSTANT: i128 = -8_640_000_000_000_000_000_000;

/// The largest magnitude of a time duration in nanoseconds: one nanosecond
/// short of 2^53 seconds.
pub const MAX_TIME_DURATION: i128 = 9_007_199_254_740_991_999_999_999;

/// The sign of a quantity.
#[derive(Debug, Clone, Copy, PartialEq, Eq, Structural)]
pub enum Sign {
    Negative,
    Zero,
    Positive,
}

impl Sign {
    /// The sign of the integer `value`.
    pub open spec fn of(value: int) -> Sign {
        if value < 0 {
            Sign::Negative
        } else if value == 0 {
            Sign::Zero
        } else {
            Sign::Positive
        }
    }

    /// The factor -1, 0 or 1 that this sign stands for.
    pub open spec fn factor(self) -> int {
        match self {
            Sign::Negative => -1,
            Sign::Zero => 0,
            Sign::Positive => 1,
        }
    }

    /// Returns the sign of `value`.
    pub fn from_i128(value: i128) -> (sign: Sign)
        ensures
            sign == Sign::of(value as int),
    {
        if value < 0 {
            Sign::Negative
        } else if value == 0 {
            Sign::Zero
        } else {
            Sign::Positive
        }
    }

    /// Returns -1, 0 or 1.
    pub fn as_i8(self) -> (factor: i8)
        ensures
            factor == self.factor(),
    {
        match self {
            Sign::Negative => -1,
            Sign::Zero => 0,
            Sign::Positive => 1,
        }
    }
}

} // verus!
