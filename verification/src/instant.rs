//! An exact point on the timeline, counted in nanoseconds from the epoch.

use vstd::prelude::*;

use num_bigint::BigInt;

use crate::duration::{difference_of, Duration, TimeDuration};
use crate::error::{range_error, TemporalError};
use crate::math::{div_floor, lemma_div_mod_split, rem_floor};
use crate::normalized::{lemma_rounding_stays_in_range, NormalizedTimeDuration};
use crate::options::{
    increment_fits,
    DifferenceOperation,
    DifferenceSettings,
    RoundingIncrement,
    TemporalRoundingMode,
    TemporalUnit,
};
use crate::rounding::{
    lemma_quotient_fits,
    round_as_if_positive,
    rounded_quotient,
    IncrementRounder,
};
use crate::time::{increment_or_one, mode_or_default};
use crate::{NS_MAX_INSTANT, NS_MIN_INSTANT, NS_PER_MICROSECOND, NS_PER_MILLISECOND, NS_PER_SECOND};

verus! {

#[verifier::external_type_specification]
#[verifier::external_body]
pub struct ExBigInt(num_bigint::BigInt);

/// The integer that a big integer holds.
pub uninterp spec fn bigint_value(value: BigInt) -> int;

/// Narrows a big integer to 128 bits with `ToPrimitive::to_i128`: the integer
/// it holds where that lies in the range of `i128`, nothing elsewhere.
#[verifier::external_body]
fn bigint_to_i128(value: &BigInt) -> (narrowed: Option<i128>)
    ensures
        narrowed == (if i128::MIN <= bigint_value(*value) <= i128::MAX {
            Some(bigint_value(*value) as i128)
        } else {
            None
        }),
{
    num_traits::ToPrimitive::to_i128(value)
}

/// Whether a count of nanoseconds from the epoch is that of an instant: at
/// most 10^8 days away from the epoch.
pub open spec fn is_valid_epoch_nanoseconds(nanoseconds: int) -> bool {
    NS_MIN_INSTANT <= nanoseconds <= NS_MAX_INSTANT
}

/// The count of an instant moved by `by` nanoseconds; `None` where that is no
/// instant.
pub open spec fn shifted(epoch_nanoseconds: int, by: int) -> Option<int> {
    if is_valid_epoch_nanoseconds(epoch_nanoseconds + by) {
        Some(epoch_nanoseconds + by)
    } else {
        None
    }
}

/// Whether an instant can be rounded to `increment` of `unit`: the unit is a
/// unit of time, and the increment lies between 1 and 10^9, is at most the
/// number of such units in a day, and divides that number.
pub open spec fn instant_rounding_admitted(unit: TemporalUnit, increment: int) -> bool {
    match unit.per_day() {
        Some(maximum) => increment <= 1_000_000_000 && increment_fits(increment, maximum, true),
        None => false,
    }
}

/// The count of an instant rounded to `increment` of a unit of time. Counts
/// before the epoch are rounded as positive numbers are: `Trunc` and `Floor`
/// go to the earlier multiple, `Expand` and `Ceil` to the later one.
pub open spec fn rounded_epoch_nanoseconds(
    epoch_nanoseconds: int,
    unit: TemporalUnit,
    increment: int,
    mode: TemporalRoundingMode,
) -> int {
    round_as_if_positive(epoch_nanoseconds, increment * unit.nanoseconds().unwrap(), mode)
}

/// An exact point on the timeline at most 10^8 days away from the epoch. Its
/// view is its count of nanoseconds from the epoch.
#[derive(Debug, Clone, Copy, PartialEq, Eq, PartialOrd, Ord)]
pub struct Instant {
    nanos: i128,
}

impl View for Instant {
    type V = int;

    closed spec fn view(&self) -> int {
        self.nanos as int
    }
}

impl Instant {
    /// Every instant is within range.
    #[verifier::type_invariant]
    pub open spec fn is_valid(self) -> bool {
        is_valid_epoch_nanoseconds(self@)
    }

    /// An instant that is made anew of the count of an instant is that
    /// instant: the count of every instant is one that `new` and `try_new`
    /// accept, and two instants of one count are equal.
    pub proof fn lemma_new_round_trip(self, again: Instant)
        requires
            self.is_valid(),
            again@ == self@,
        ensures
            is_valid_epoch_nanoseconds(self@),
            again == self,
    {
    }

    /// Moves the instant by the length of a time duration. Fails with a range
    /// error exactly when the sum is no instant.
    pub fn add_to_instant(&self, duration: &TimeDuration) -> (result: Result<
        Instant,
        TemporalError,
    >)
        ensures
            result is Ok <==> shifted(self@, duration@.total_nanoseconds()) is Some,
            result matches Ok(instant) ==> Some(instant@) == shifted(
                self@,
                duration@.total_nanoseconds(),
            ),
            result matches Err(error) ==> error == range_error(),
    {
        proof {
            use_type_invariant(self);
        }
        let total: i128 = duration.total_nanoseconds();
        Instant::try_new(self.nanos + total)
    }

    /// Reports the exact length from this instant to `other` as a difference
    /// under the settings, the largest unit defaulting to the second.
    ///
    /// Fails with a range error exactly when the settings cannot be resolved
    /// or name a largest unit of a day or coarser.
    pub fn diff_instant(
        &self,
        op: DifferenceOperation,
        other: &Instant,
        options: DifferenceSettings,
    ) -> (result: Result<TimeDuration, TemporalError>)
        ensures
            result is Ok <==> {
                &&& options@.resolvable(TemporalUnit::Second, TemporalUnit::Nanosecond)
                &&& options@.largest_or(
                    TemporalUnit::Second,
                    TemporalUnit::Nanosecond,
                ).spec_is_time_unit()
            },
            result matches Ok(duration) ==> Some(duration@) == difference_of(
                other@ - self@,
                op,
                options@,
                TemporalUnit::Second,
            ),
            result matches Err(error) ==> error == range_error(),
    {
        proof {
            use_type_invariant(self);
            use_type_invariant(other);
            let resolved = options@.resolved(TemporalUnit::Second, TemporalUnit::Nanosecond);
            if options@.resolvable(TemporalUnit::Second, TemporalUnit::Nanosecond)
                && resolved.largest_unit.spec_is_time_unit() {
                lemma_rounding_stays_in_range(other@ - self@, resolved);
            }
        }
        let (seconds, milliseconds, microseconds, nanoseconds) = split_epoch_difference(
            other.nanos - self.nanos,
        );
        let delta: NormalizedTimeDuration = match NormalizedTimeDuration::try_new(
            seconds * NS_PER_SECOND + milliseconds * NS_PER_MILLISECOND + microseconds
                * NS_PER_MICROSECOND + nanoseconds,
        ) {
            Ok(delta) => delta,
            Err(error) => {
                return Err(error);
            },
        };
        TimeDuration::difference(delta, op, options, TemporalUnit::Second)
    }

    /// Rounds the count of the instant to `increment` of `unit`, as a
    /// positive number is rounded. Fails with a range error exactly when the
    /// unit is not a unit of time.
    pub fn round_instant(
        &self,
        increment: RoundingIncrement,
        unit: TemporalUnit,
        rounding_mode: TemporalRoundingMode,
    ) -> (result: Result<i128, TemporalError>)
        ensures
            result is Ok <==> unit.spec_is_time_unit(),
            result matches Ok(rounded) ==> rounded == rounded_epoch_nanoseconds(
                self@,
                unit,
                increment@,
                rounding_mode,
            ),
            result matches Err(error) ==> error == range_error(),
    {
        proof {
            use_type_invariant(self);
        }
        let length: i128 = match unit.as_nanoseconds() {
            Some(length) => length as i128,
            None => {
                return Err(TemporalError::range());
            },
        };
        let extended: i128 = increment.as_extended_increment();
        assert(0 < extended * length <= 1_000_000_000 * 3_600_000_000_000) by (nonlinear_arith)
            requires
                1 <= length <= 3_600_000_000_000,
                1 <= extended <= 1_000_000_000,
        ;
        let scaled: i128 = match extended.checked_mul(length) {
            Some(scaled) => scaled,
            None => {
                return Err(TemporalError::range());
            },
        };
        let rounder = match IncrementRounder::from_potentially_negative_parts(self.nanos, scaled) {
            Ok(rounder) => rounder,
            Err(error) => {
                return Err(error);
            },
        };
        Ok(rounder.round_as_positive(rounding_mode))
    }

    /// Makes the instant of a count of nanoseconds from the epoch. Fails with
    /// a range error exactly when the count is more than 10^8 days away from
    /// the epoch.
    pub fn new(nanos: BigInt) -> (result: Result<Instant, TemporalError>)
        ensures
            result is Ok <==> is_valid_epoch_nanoseconds(bigint_value(nanos)),
            result matches Ok(instant) ==> instant@ == bigint_value(nanos),
            result matches Err(error) ==> error == range_error(),
    {
        Instant::from_narrowed(bigint_to_i128(&nanos))
    }

    /// Makes the instant of a count that was narrowed to 128 bits, where the
    /// narrowing kept it. Fails with a range error exactly when the count was
    /// lost or is more than 10^8 days away from the epoch.
    pub fn from_narrowed(nanos: Option<i128>) -> (result: Result<Instant, TemporalError>)
        ensures
            result is Ok <==> nanos is Some && is_valid_epoch_nanoseconds(nanos.unwrap() as int),
            result matches Ok(instant) ==> instant@ == nanos.unwrap(),
            result matches Err(error) ==> error == range_error(),
    {
        match nanos {
            Some(nanos) => Instant::try_new(nanos),
            None => Err(TemporalError::range()),
        }
    }

    /// Makes the instant of a count of nanoseconds from the epoch. Fails with
    /// a range error exactly when the count is more than 10^8 days away from
    /// the epoch.
    pub fn try_new(nanos: i128) -> (result: Result<Instant, TemporalError>)
        ensures
            result is Ok <==> is_valid_epoch_nanoseconds(nanos as int),
            result matches Ok(instant) ==> instant@ == nanos,
            result matches Err(error) ==> error == range_error(),
    {
        if !is_valid_epoch_nanos(nanos) {
            return Err(TemporalError::range());
        }
        Ok(Instant { nanos })
    }

    /// Moves the instant forward by a duration. Fails with a range error
    /// exactly when the duration has a date part or the sum is no instant.
    pub fn add(&self, duration: Duration) -> (result: Result<Instant, TemporalError>)
        ensures
            result is Ok <==> duration@.is_time_duration() && shifted(
                self@,
                duration@.time.total_nanoseconds(),
            ) is Some,
            result matches Ok(instant) ==> Some(instant@) == shifted(
                self@,
                duration@.time.total_nanoseconds(),
            ),
            result matches Err(error) ==> error == range_error(),
    {
        if !duration.is_time_duration() {
            return Err(TemporalError::range());
        }
        self.add_time_duration(duration.time())
    }

    /// Moves the instant forward by a time duration. Fails with a range error
    /// exactly when the sum is no instant.
    pub fn add_time_duration(&self, duration: &TimeDuration) -> (result: Result<
        Instant,
        TemporalError,
    >)
        ensures
            result is Ok <==> shifted(self@, duration@.total_nanoseconds()) is Some,
            result matches Ok(instant) ==> Some(instant@) == shifted(
                self@,
                duration@.total_nanoseconds(),
            ),
            result matches Err(error) ==> error == range_error(),
    {
        self.add_to_instant(duration)
    }

    /// Moves the instant back by a duration. Fails with a range error exactly
    /// when the duration has a date part or the difference is no instant.
    pub fn subtract(&self, duration: Duration) -> (result: Result<Instant, TemporalError>)
        ensures
            result is Ok <==> duration@.is_time_duration() && shifted(
                self@,
                -duration@.time.total_nanoseconds(),
            ) is Some,
            result matches Ok(instant) ==> Some(instant@) == shifted(
                self@,
                -duration@.time.total_nanoseconds(),
            ),
            result matches Err(error) ==> error == range_error(),
    {
        if !duration.is_time_duration() {
            return Err(TemporalError::range());
        }
        self.subtract_time_duration(duration.time())
    }

    /// Moves the instant back by a time duration. Fails with a range error
    /// exactly when the difference is no instant.
    pub fn subtract_time_duration(&self, duration: &TimeDuration) -> (result: Result<
        Instant,
        TemporalError,
    >)
        ensures
            result is Ok <==> shifted(self@, -duration@.total_nanoseconds()) is Some,
            result matches Ok(instant) ==> Some(instant@) == shifted(
                self@,
                -duration@.total_nanoseconds(),
            ),
            result matches Err(error) ==> error == range_error(),
    {
        let negated: TimeDuration = duration.negated();
        self.add_to_instant(&negated)
    }

    /// Returns the duration to this instant since `other`: positive where
    /// `other` is the earlier instant.
    ///
    /// Fails with a range error exactly when the settings cannot be resolved
    /// or name a largest unit of a day or coarser.
    pub fn since(&self, other: &Instant, settings: DifferenceSettings) -> (result: Result<
        TimeDuration,
        TemporalError,
    >)
        ensures
            result is Ok <==> {
                &&& settings@.resolvable(TemporalUnit::Second, TemporalUnit::Nanosecond)
                &&& settings@.largest_or(
                    TemporalUnit::Second,
                    TemporalUnit::Nanosecond,
                ).spec_is_time_unit()
            },
            result matches Ok(duration) ==> Some(duration@) == difference_of(
                other@ - self@,
                DifferenceOperation::Since,
                settings@,
                TemporalUnit::Second,
            ),
            result matches Err(error) ==> error == range_error(),
    {
        self.diff_instant(DifferenceOperation::Since, other, settings)
    }

    /// Returns the duration from this instant until `other`: positive where
    /// `other` is the later instant.
    ///
    /// Fails with a range error exactly when the settings cannot be resolved
    /// or name a largest unit of a day or coarser.
    pub fn until(&self, other: &Instant, settings: DifferenceSettings) -> (result: Result<
        TimeDuration,
        TemporalError,
    >)
        ensures
            result is Ok <==> {
                &&& settings@.resolvable(TemporalUnit::Second, TemporalUnit::Nanosecond)
                &&& settings@.largest_or(
                    TemporalUnit::Second,
                    TemporalUnit::Nanosecond,
                ).spec_is_time_unit()
            },
            result matches Ok(duration) ==> Some(duration@) == difference_of(
                other@ - self@,
                DifferenceOperation::Until,
                settings@,
                TemporalUnit::Second,
            ),
            result matches Err(error) ==> error == range_error(),
    {
        self.diff_instant(DifferenceOperation::Until, other, settings)
    }

    /// Rounds the instant to a multiple of the increment in `unit`, counted
    /// from the epoch. The increment defaults to 1 and the mode to
    /// `HalfExpand`.
    ///
    /// Fails with a range error exactly when the unit is not a unit of time,
    /// or the increment is not between 1 and 10^9, exceeds the number of such
    /// units in a day, or does not divide that number.
    pub fn round(
        &self,
        increment: Option<i64>,
        unit: TemporalUnit,
        rounding_mode: Option<TemporalRoundingMode>,
    ) -> (result: Result<Instant, TemporalError>)
        ensures
            result is Ok <==> instant_rounding_admitted(unit, increment_or_one(increment)),
            result matches Ok(instant) ==> instant@ == rounded_epoch_nanoseconds(
                self@,
                unit,
                increment_or_one(increment),
                mode_or_default(rounding_mode),
            ),
            result matches Err(error) ==> error == range_error(),
    {
        let asked: i64 = match increment {
            Some(asked) => asked,
            None => 1,
        };
        let increment: RoundingIncrement = match RoundingIncrement::try_from_integer(asked) {
            Ok(increment) => increment,
            Err(error) => {
                return Err(error);
            },
        };
        let mode: TemporalRoundingMode = match rounding_mode {
            Some(mode) => mode,
            None => TemporalRoundingMode::HalfExpand,
        };
        let maximum: u64 = match unit.to_maximum_day_increment() {
            Some(maximum) => maximum,
            None => {
                return Err(TemporalError::range());
            },
        };
        match increment.validate(maximum, true) {
            Ok(()) => {},
            Err(error) => {
                return Err(error);
            },
        }
        let rounded: i128 = match self.round_instant(increment, unit, mode) {
            Ok(rounded) => rounded,
            Err(error) => {
                return Err(error);
            },
        };
        proof {
            use_type_invariant(self);
            lemma_rounded_instant_in_range(self@, unit, increment@, mode);
        }
        Instant::try_new(rounded)
    }

    /// Returns the whole seconds from the epoch, rounded down.
    pub fn epoch_seconds(&self) -> (seconds: i128)
        ensures
            seconds == self@ / 1_000_000_000,
    {
        div_floor(self.nanos, NS_PER_SECOND)
    }

    /// Returns the whole milliseconds from the epoch, rounded down.
    pub fn epoch_milliseconds(&self) -> (milliseconds: i128)
        ensures
            milliseconds == self@ / 1_000_000,
    {
        div_floor(self.nanos, NS_PER_MILLISECOND)
    }

    /// Returns the whole microseconds from the epoch, rounded down.
    pub fn epoch_microseconds(&self) -> (microseconds: i128)
        ensures
            microseconds == self@ / 1_000,
    {
        div_floor(self.nanos, NS_PER_MICROSECOND)
    }

    /// Returns the nanoseconds from the epoch.
    pub fn epoch_nanoseconds(&self) -> (nanoseconds: i128)
        ensures
            nanoseconds == self@,
            is_valid_epoch_nanoseconds(nanoseconds as int),
    {
        proof {
            use_type_invariant(self);
        }
        self.nanos
    }
}

/// Splits a difference of epoch nanoseconds into whole seconds and the
/// milliseconds, microseconds and nanoseconds beyond them. The seconds are
/// rounded down, so that the other three are never negative, whatever the
/// sign of the difference; together the four come to the difference exactly.
pub fn split_epoch_difference(difference: i128) -> (parts: (i128, i128, i128, i128))
    ensures
        0 <= parts.1 < 1000,
        0 <= parts.2 < 1000,
        0 <= parts.3 < 1000,
        parts.0 * 1_000_000_000 + parts.1 * 1_000_000 + parts.2 * 1_000 + parts.3 == difference,
        parts.0 == difference as int / 1_000_000_000,
{
    proof {
        lemma_div_mod_split(difference as int, 1_000);
        lemma_div_mod_split(difference as int / 1_000, 1_000);
        lemma_div_mod_split(difference as int / 1_000_000, 1_000);
        crate::math::lemma_div_bound(difference as int, 1_000);
        crate::math::lemma_div_bound(difference as int, 1_000_000);
        lemma_floor_division_chain(difference as int);
    }
    let nanoseconds: i128 = rem_floor(difference, NS_PER_MICROSECOND);
    let microseconds: i128 = rem_floor(div_floor(difference, NS_PER_MICROSECOND), 1000);
    let milliseconds: i128 = rem_floor(div_floor(difference, NS_PER_MILLISECOND), 1000);
    let seconds: i128 = div_floor(difference, NS_PER_SECOND);
    (seconds, milliseconds, microseconds, nanoseconds)
}

/// Dividing by a thousand three times in turn, rounding down, gives the
/// quotients by a million and by a billion, whatever the sign of the number.
pub proof fn lemma_floor_division_chain(x: int)
    ensures
        x / 1_000 / 1_000 == x / 1_000_000,
        x / 1_000_000 / 1_000 == x / 1_000_000_000,
{
    lemma_div_mod_split(x, 1_000);
    lemma_div_mod_split(x / 1_000, 1_000);
    lemma_div_mod_split(x / 1_000 / 1_000, 1_000);
    let millions = x / 1_000 / 1_000;
    let below_million = (x / 1_000 % 1_000) * 1_000 + x % 1_000;
    crate::math::lemma_div_mod_unique(x, 1_000_000, millions, below_million);
    let billions = millions / 1_000;
    let below_billion = (millions % 1_000) * 1_000_000 + below_million;
    crate::math::lemma_div_mod_unique(x, 1_000_000_000, billions, below_billion);
}

/// Whether a count of nanoseconds from the epoch is that of an instant.
pub fn is_valid_epoch_nanos(nanos: i128) -> (yes: bool)
    ensures
        yes == is_valid_epoch_nanoseconds(nanos as int),
{
    nanos <= NS_MAX_INSTANT && nanos >= NS_MIN_INSTANT
}

/// An instant that is moved by a length and then moved back by it is where
/// it was.
pub proof fn lemma_add_then_subtract(epoch_nanoseconds: int, by: int)
    requires
        is_valid_epoch_nanoseconds(epoch_nanoseconds),
        shifted(epoch_nanoseconds, by) is Some,
    ensures
        shifted(shifted(epoch_nanoseconds, by).unwrap(), -by) == Some(epoch_nanoseconds),
{
}

/// Rounding an instant never leaves the range of instants: both ends of the
/// range are whole days, and every admitted increment divides the day.
pub proof fn lemma_rounded_instant_in_range(
    epoch_nanoseconds: int,
    unit: TemporalUnit,
    increment: int,
    mode: TemporalRoundingMode,
)
    requires
        is_valid_epoch_nanoseconds(epoch_nanoseconds),
        instant_rounding_admitted(unit, increment),
    ensures
        is_valid_epoch_nanoseconds(
            rounded_epoch_nanoseconds(epoch_nanoseconds, unit, increment, mode),
        ),
{
    let length = unit.nanoseconds().unwrap();
    let per_day = unit.per_day().unwrap();
    let step = increment * length;
    assert(per_day * length == 86_400_000_000_000);
    lemma_div_mod_split(per_day, increment);
    let parts = per_day / increment;
    assert(step > 0 && parts * step == 86_400_000_000_000 && parts > 0) by (nonlinear_arith)
        requires
            per_day == parts * increment,
            per_day * length == 86_400_000_000_000,
            step == increment * length,
            increment >= 1,
            length >= 1,
    ;
    let limit = 100_000_000 * parts;
    assert(limit * step == 8_640_000_000_000_000_000_000) by (nonlinear_arith)
        requires
            limit == 100_000_000 * parts,
            parts * step == 86_400_000_000_000,
    ;
    let quotient = rounded_quotient(epoch_nanoseconds, step, mode.unsigned_mode(true));
    lemma_quotient_fits(epoch_nanoseconds, step, mode.unsigned_mode(true));
    assert(-limit <= quotient <= limit) by (nonlinear_arith)
        requires
            step > 0,
            limit * step == 8_640_000_000_000_000_000_000,
            epoch_nanoseconds - step < quotient * step < epoch_nanoseconds + step,
            -8_640_000_000_000_000_000_000 <= epoch_nanoseconds <= 8_640_000_000_000_000_000_000,
    ;
    assert(-(limit * step) <= quotient * step <= limit * step) by (nonlinear_arith)
        requires
            step > 0,
            -limit <= quotient <= limit,
    ;
}

/// Rounding an instant is idempotent: an instant that a rounding returned is
/// returned unchanged by a second rounding with the same unit, increment and
/// mode.
pub proof fn lemma_rounded_instant_idempotent(
    epoch_nanoseconds: int,
    unit: TemporalUnit,
    increment: int,
    mode: TemporalRoundingMode,
)
    requires
        instant_rounding_admitted(unit, increment),
    ensures
        rounded_epoch_nanoseconds(
            rounded_epoch_nanoseconds(epoch_nanoseconds, unit, increment, mode),
            unit,
            increment,
            mode,
        ) == rounded_epoch_nanoseconds(epoch_nanoseconds, unit, increment, mode),
{
    let length = unit.nanoseconds().unwrap();
    assert(increment * length > 0) by (nonlinear_arith)
        requires
            increment >= 1,
            length >= 1,
    ;
    crate::rounding::lemma_round_idempotent(epoch_nanoseconds, increment * length, mode);
}

} // verus!
