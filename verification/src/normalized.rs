//! A time duration as one exact count of nanoseconds.

use vstd::prelude::*;

use crate::duration::TimeDuration;
use crate::error::{range_error, TemporalError};
use crate::math::abs;
use crate::options::{ResolvedRoundingOptions, ResolvedRoundingOptionsView};
use crate::rounding::{round_to_increment, IncrementRounder};
use crate::{Sign, MAX_TIME_DURATION, NS_PER_SECOND};

verus! {

/// Whether a count of nanoseconds is within the range of a time duration:
/// less than 2^53 seconds in magnitude.
pub open spec fn in_duration_range(nanoseconds: int) -> bool {
    abs(nanoseconds) <= MAX_TIME_DURATION
}

/// The whole seconds of a count of nanoseconds, rounded toward zero.
pub open spec fn whole_seconds(nanoseconds: int) -> int {
    if nanoseconds >= 0 {
        nanoseconds / 1_000_000_000
    } else {
        -((-nanoseconds) / 1_000_000_000)
    }
}

/// What the whole seconds leave of a count of nanoseconds. It has the sign of
/// the count, or is zero.
pub open spec fn subsecond_nanoseconds(nanoseconds: int) -> int {
    nanoseconds - whole_seconds(nanoseconds) * 1_000_000_000
}

/// A duration rounded to a multiple of the increment in the smallest unit.
/// `None` where the smallest unit is not a unit of time, or where the rounded
/// duration leaves the range of a time duration.
pub open spec fn rounded_duration(nanoseconds: int, options: ResolvedRoundingOptionsView) -> Option<
    int,
> {
    match options.smallest_unit.nanoseconds() {
        Some(length) => {
            let rounded = round_to_increment(
                nanoseconds,
                length * options.increment,
                options.rounding_mode,
            );
            if in_duration_range(rounded) {
                Some(rounded)
            } else {
                None
            }
        },
        None => None,
    }
}

/// A time duration as one exact count of nanoseconds, less than 2^53 seconds
/// in magnitude. Its view is the count.
#[derive(Debug, Clone, Copy, PartialEq, Eq)]
pub struct NormalizedTimeDuration {
    nanoseconds: i128,
}

impl View for NormalizedTimeDuration {
    type V = int;

    closed spec fn view(&self) -> int {
        self.nanoseconds as int
    }
}

impl NormalizedTimeDuration {
    /// Every normalized duration is within the range of a time duration.
    #[verifier::type_invariant]
    pub open spec fn is_valid(self) -> bool {
        in_duration_range(self@)
    }

    /// The duration of no length.
    pub fn zero() -> (duration: NormalizedTimeDuration)
        ensures
            duration@ == 0,
    {
        NormalizedTimeDuration { nanoseconds: 0 }
    }

    /// Makes a duration of a count of nanoseconds that is known to be within
    /// range.
    pub fn new_unchecked(nanoseconds: i128) -> (duration: NormalizedTimeDuration)
        requires
            in_duration_range(nanoseconds as int),
        ensures
            duration@ == nanoseconds,
    {
        NormalizedTimeDuration { nanoseconds }
    }

    /// Makes a duration of a count of nanoseconds. Fails with a range error
    /// exactly when the count is out of range.
    pub fn try_new(nanoseconds: i128) -> (result: Result<NormalizedTimeDuration, TemporalError>)
        ensures
            result is Ok <==> in_duration_range(nanoseconds as int),
            result matches Ok(duration) ==> duration@ == nanoseconds,
            result matches Err(error) ==> error == range_error(),
    {
        if nanoseconds > MAX_TIME_DURATION || nanoseconds < -MAX_TIME_DURATION {
            Err(TemporalError::range())
        } else {
            Ok(NormalizedTimeDuration { nanoseconds })
        }
    }

    /// The exact length of a time duration.
    pub fn from_time_duration(time: &TimeDuration) -> (duration: NormalizedTimeDuration)
        ensures
            duration@ == time@.total_nanoseconds(),
    {
        let nanoseconds: i128 = time.total_nanoseconds();
        NormalizedTimeDuration { nanoseconds }
    }

    /// The difference `one - two` of two counts of nanoseconds. Fails with a
    /// range error exactly when the difference is out of range.
    pub fn from_nanosecond_difference(one: i128, two: i128) -> (result: Result<
        NormalizedTimeDuration,
        TemporalError,
    >)
        ensures
            result is Ok <==> in_duration_range(one - two),
            result matches Ok(duration) ==> duration@ == one - two,
            result matches Err(error) ==> error == range_error(),
    {
        match one.checked_sub(two) {
            Some(difference) => NormalizedTimeDuration::try_new(difference),
            None => Err(TemporalError::range()),
        }
    }

    /// Returns the count of nanoseconds.
    pub fn total_nanoseconds(&self) -> (nanoseconds: i128)
        ensures
            nanoseconds == self@,
            in_duration_range(nanoseconds as int),
    {
        proof {
            use_type_invariant(self);
        }
        self.nanoseconds
    }

    /// Returns the whole seconds, rounded toward zero.
    pub fn seconds(&self) -> (seconds: i64)
        ensures
            seconds == whole_seconds(self@),
    {
        proof {
            use_type_invariant(self);
        }
        (self.nanoseconds / NS_PER_SECOND) as i64
    }

    /// Returns the nanoseconds that the whole seconds leave.
    pub fn subseconds(&self) -> (nanoseconds: i32)
        ensures
            nanoseconds == subsecond_nanoseconds(self@),
            -1_000_000_000 < nanoseconds < 1_000_000_000,
    {
        proof {
            use_type_invariant(self);
        }
        (self.nanoseconds % NS_PER_SECOND) as i32
    }

    /// Returns the sign of the duration.
    pub fn sign(&self) -> (sign: Sign)
        ensures
            sign == Sign::of(self@),
    {
        Sign::from_i128(self.nanoseconds)
    }

    /// Returns the duration of the same length and the other direction.
    pub fn negated(&self) -> (duration: NormalizedTimeDuration)
        ensures
            duration@ == -self@,
    {
        proof {
            use_type_invariant(self);
        }
        NormalizedTimeDuration { nanoseconds: -self.nanoseconds }
    }

    /// Adds two durations. Fails with a range error exactly when the sum is
    /// out of range.
    pub fn checked_add(&self, other: &NormalizedTimeDuration) -> (result: Result<
        NormalizedTimeDuration,
        TemporalError,
    >)
        ensures
            result is Ok <==> in_duration_range(self@ + other@),
            result matches Ok(duration) ==> duration@ == self@ + other@,
            result matches Err(error) ==> error == range_error(),
    {
        proof {
            use_type_invariant(self);
            use_type_invariant(other);
        }
        NormalizedTimeDuration::try_new(self.nanoseconds + other.nanoseconds)
    }

    /// Subtracts `other` from this duration. Fails with a range error exactly
    /// when the difference is out of range.
    pub fn checked_sub(&self, other: &NormalizedTimeDuration) -> (result: Result<
        NormalizedTimeDuration,
        TemporalError,
    >)
        ensures
            result is Ok <==> in_duration_range(self@ - other@),
            result matches Ok(duration) ==> duration@ == self@ - other@,
            result matches Err(error) ==> error == range_error(),
    {
        proof {
            use_type_invariant(self);
            use_type_invariant(other);
        }
        NormalizedTimeDuration::try_new(self.nanoseconds - other.nanoseconds)
    }

    /// Rounds the duration to a multiple of the increment in the smallest
    /// unit of `options`. Fails with a range error exactly when the smallest
    /// unit is not a unit of time or the rounded duration is out of range.
    pub fn round(&self, options: ResolvedRoundingOptions) -> (result: Result<
        NormalizedTimeDuration,
        TemporalError,
    >)
        ensures
            result is Ok <==> rounded_duration(self@, options@) is Some,
            result matches Ok(duration) ==> Some(duration@) == rounded_duration(self@, options@),
            result matches Err(error) ==> error == range_error(),
    {
        proof {
            use_type_invariant(self);
        }
        let length: i128 = match options.smallest_unit.as_nanoseconds() {
            Some(length) => length as i128,
            None => {
                return Err(TemporalError::range());
            },
        };
        let extended: i128 = options.increment.as_extended_increment();
        assert(0 < length * extended <= 3_600_000_000_000 * 1_000_000_000) by (nonlinear_arith)
            requires
                1 <= length <= 3_600_000_000_000,
                1 <= extended <= 1_000_000_000,
        ;
        let increment: i128 = length * extended;
        let rounder = match IncrementRounder::from_potentially_negative_parts(
            self.nanoseconds,
            increment,
        ) {
            Ok(rounder) => rounder,
            Err(error) => {
                return Err(error);
            },
        };
        let rounded: i128 = rounder.round(options.rounding_mode);
        NormalizedTimeDuration::try_new(rounded)
    }
}

/// Rounding a time duration is idempotent: a duration that a rounding returned
/// is returned unchanged by a second rounding with the same options.
pub proof fn lemma_rounded_duration_idempotent(
    nanoseconds: int,
    options: ResolvedRoundingOptionsView,
)
    requires
        options.increment >= 1,
        rounded_duration(nanoseconds, options) is Some,
    ensures
        rounded_duration(rounded_duration(nanoseconds, options).unwrap(), options)
            == rounded_duration(nanoseconds, options),
{
    let length = options.smallest_unit.nanoseconds().unwrap();
    assert(length * options.increment > 0) by (nonlinear_arith)
        requires
            length >= 1,
            options.increment >= 1,
    ;
    crate::rounding::lemma_round_idempotent(
        nanoseconds,
        length * options.increment,
        options.rounding_mode,
    );
}

/// A length of at most 9 * 10^24 nanoseconds that is rounded to an increment
/// in a unit of time stays within the range of a time duration.
pub proof fn lemma_rounding_stays_in_range(delta: int, resolved: ResolvedRoundingOptionsView)
    requires
        abs(delta) <= 9_000_000_000_000_000_000_000_000,
        1 <= resolved.increment <= 1_000_000_000,
        resolved.smallest_unit.spec_is_time_unit(),
    ensures
        rounded_duration(delta, resolved) is Some,
{
    let length = resolved.smallest_unit.nanoseconds().unwrap();
    let step = length * resolved.increment;
    assert(0 < step <= 3_600_000_000_000 * 1_000_000_000) by (nonlinear_arith)
        requires
            1 <= length <= 3_600_000_000_000,
            1 <= resolved.increment <= 1_000_000_000,
            step == length * resolved.increment,
    ;
    crate::rounding::lemma_round_is_near_multiple(delta, step, resolved.rounding_mode);
}

} // verus!
