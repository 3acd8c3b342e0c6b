//! The six fields of a time of day, and the arithmetic on them.

use vstd::prelude::*;

use crate::error::{range_error, TemporalError};
use crate::math::{div_floor, lemma_div_mod_split, lemma_div_mod_unique, rem_floor};
use crate::normalized::NormalizedTimeDuration;
use crate::options::{
    ArithmeticOverflow,
    ResolvedRoundingOptions,
    ResolvedRoundingOptionsView,
    TemporalUnit,
};
use crate::rounding::{
    is_multiple,
    lemma_round_is_near_multiple,
    round_to_increment,
    IncrementRounder,
};
use crate::time::PartialTime;
use crate::{NS_PER_HOUR, NS_PER_MICROSECOND, NS_PER_MILLISECOND, NS_PER_MINUTE, NS_PER_SECOND};

verus! {

/// Whether six numbers are the fields of a time of day: an hour below 24,
/// minute and second below 60, and the three subsecond fields below 1000.
pub open spec fn is_valid_time(
    hour: int,
    minute: int,
    second: int,
    millisecond: int,
    microsecond: int,
    nanosecond: int,
) -> bool {
    &&& 0 <= hour <= 23
    &&& 0 <= minute <= 59
    &&& 0 <= second <= 59
    &&& 0 <= millisecond <= 999
    &&& 0 <= microsecond <= 999
    &&& 0 <= nanosecond <= 999
}

/// The nanoseconds that six numbers of hours, minutes, seconds, milliseconds,
/// microseconds and nanoseconds come to.
pub open spec fn nanoseconds_of(
    hour: int,
    minute: int,
    second: int,
    millisecond: int,
    microsecond: int,
    nanosecond: int,
) -> int {
    hour * 3_600_000_000_000 + minute * 60_000_000_000 + second * 1_000_000_000 + millisecond
        * 1_000_000 + microsecond * 1_000 + nanosecond
}

/// `value` moved into the range from `low` to `high`.
pub open spec fn clamped(value: int, low: int, high: int) -> int {
    if value < low {
        low
    } else if value > high {
        high
    } else {
        value
    }
}

/// The number of whole days in a count of nanoseconds, rounded down.
pub open spec fn day_overflow(nanoseconds: int) -> int {
    nanoseconds / 86_400_000_000_000
}

/// The largest magnitude of a field that `IsoTime::balance` takes.
pub const BALANCE_LIMIT: i128 = 1_000_000_000_000_000_000_000_000_000_000;

/// A time of day in six fields.
#[derive(Debug, Clone, Copy, PartialEq, Eq, PartialOrd, Ord, Structural)]
pub struct IsoTime {
    pub hour: u8,
    pub minute: u8,
    pub second: u8,
    pub millisecond: u16,
    pub microsecond: u16,
    pub nanosecond: u16,
}

impl IsoTime {
    /// Whether every field is in its range.
    pub open spec fn spec_is_valid(self) -> bool {
        is_valid_time(
            self.hour as int,
            self.minute as int,
            self.second as int,
            self.millisecond as int,
            self.microsecond as int,
            self.nanosecond as int,
        )
    }

    /// The nanoseconds from midnight to this time.
    pub open spec fn total_nanoseconds(self) -> int {
        nanoseconds_of(
            self.hour as int,
            self.minute as int,
            self.second as int,
            self.millisecond as int,
            self.microsecond as int,
            self.nanosecond as int,
        )
    }

    /// The time that lies `nanoseconds` after midnight, for a count of less
    /// than a day.
    pub open spec fn from_day_nanoseconds(nanoseconds: int) -> IsoTime {
        IsoTime {
            hour: (nanoseconds / 3_600_000_000_000) as u8,
            minute: ((nanoseconds / 60_000_000_000) % 60) as u8,
            second: ((nanoseconds / 1_000_000_000) % 60) as u8,
            millisecond: ((nanoseconds / 1_000_000) % 1000) as u16,
            microsecond: ((nanoseconds / 1_000) % 1000) as u16,
            nanosecond: (nanoseconds % 1000) as u16,
        }
    }

    /// The time of day that any count of nanoseconds from midnight falls on,
    /// whole days set apart.
    pub open spec fn balanced(nanoseconds: int) -> IsoTime {
        IsoTime::from_day_nanoseconds(nanoseconds % 86_400_000_000_000)
    }

    /// The time of six fields, each moved into its range by itself.
    pub open spec fn constrained(
        hour: int,
        minute: int,
        second: int,
        millisecond: int,
        microsecond: int,
        nanosecond: int,
    ) -> IsoTime {
        IsoTime {
            hour: clamped(hour, 0, 23) as u8,
            minute: clamped(minute, 0, 59) as u8,
            second: clamped(second, 0, 59) as u8,
            millisecond: clamped(millisecond, 0, 999) as u16,
            microsecond: clamped(microsecond, 0, 999) as u16,
            nanosecond: clamped(nanosecond, 0, 999) as u16,
        }
    }

    /// The part of the time that a rounding to `unit` works on: the field of
    /// the unit and all finer fields, in nanoseconds. For the hour this is the
    /// whole time.
    pub open spec fn quantity(self, unit: TemporalUnit) -> int {
        let hour = self.hour as int;
        let minute = self.minute as int;
        let second = self.second as int;
        let millisecond = self.millisecond as int;
        let microsecond = self.microsecond as int;
        let nanosecond = self.nanosecond as int;
        match unit {
            TemporalUnit::Hour => nanoseconds_of(
                hour,
                minute,
                second,
                millisecond,
                microsecond,
                nanosecond,
            ),
            TemporalUnit::Minute => nanoseconds_of(
                0,
                minute,
                second,
                millisecond,
                microsecond,
                nanosecond,
            ),
            TemporalUnit::Second => nanoseconds_of(
                0,
                0,
                second,
                millisecond,
                microsecond,
                nanosecond,
            ),
            TemporalUnit::Millisecond => nanoseconds_of(
                0,
                0,
                0,
                millisecond,
                microsecond,
                nanosecond,
            ),
            TemporalUnit::Microsecond => nanoseconds_of(0, 0, 0, 0, microsecond, nanosecond),
            TemporalUnit::Nanosecond => nanosecond,
            _ => 0,
        }
    }

    /// The nanoseconds from midnight that the time comes to when its quantity
    /// for the smallest unit is rounded to a multiple of the increment.
    pub open spec fn rounded_nanoseconds(self, options: ResolvedRoundingOptionsView) -> int {
        let quantity = self.quantity(options.smallest_unit);
        let length = options.smallest_unit.nanoseconds().unwrap();
        self.total_nanoseconds() - quantity + round_to_increment(
            quantity,
            options.increment * length,
            options.rounding_mode,
        )
    }

    /// Makes a time of six fields as they are.
    pub fn new_unchecked(
        hour: u8,
        minute: u8,
        second: u8,
        millisecond: u16,
        microsecond: u16,
        nanosecond: u16,
    ) -> (time: IsoTime)
        ensures
            time == (IsoTime { hour, minute, second, millisecond, microsecond, nanosecond }),
    {
        IsoTime { hour, minute, second, millisecond, microsecond, nanosecond }
    }

    /// Makes a time of six fields. With `Constrain` each field is moved into
    /// its range by itself; with `Reject` the call fails with a range error
    /// exactly when a field is out of range.
    pub fn new(
        hour: i32,
        minute: i32,
        second: i32,
        millisecond: i32,
        microsecond: i32,
        nanosecond: i32,
        overflow: ArithmeticOverflow,
    ) -> (result: Result<IsoTime, TemporalError>)
        ensures
            result is Err <==> overflow == ArithmeticOverflow::Reject && !is_valid_time(
                hour as int,
                minute as int,
                second as int,
                millisecond as int,
                microsecond as int,
                nanosecond as int,
            ),
            result matches Ok(time) ==> time == IsoTime::constrained(
                hour as int,
                minute as int,
                second as int,
                millisecond as int,
                microsecond as int,
                nanosecond as int,
            ) && time.spec_is_valid(),
            result matches Err(error) ==> error == range_error(),
    {
        match overflow {
            ArithmeticOverflow::Constrain => Ok(
                IsoTime {
                    hour: clamp(hour, 0, 23) as u8,
                    minute: clamp(minute, 0, 59) as u8,
                    second: clamp(second, 0, 59) as u8,
                    millisecond: clamp(millisecond, 0, 999) as u16,
                    microsecond: clamp(microsecond, 0, 999) as u16,
                    nanosecond: clamp(nanosecond, 0, 999) as u16,
                },
            ),
            ArithmeticOverflow::Reject => {
                if !(0 <= hour && hour <= 23 && 0 <= minute && minute <= 59 && 0 <= second
                    && second <= 59 && 0 <= millisecond && millisecond <= 999 && 0 <= microsecond
                    && microsecond <= 999 && 0 <= nanosecond && nanosecond <= 999) {
                    return Err(TemporalError::range());
                }
                Ok(
                    IsoTime {
                        hour: hour as u8,
                        minute: minute as u8,
                        second: second as u8,
                        millisecond: millisecond as u16,
                        microsecond: microsecond as u16,
                        nanosecond: nanosecond as u16,
                    },
                )
            },
        }
    }

    /// Makes the time that has the fields of `partial` where it gives one, and
    /// the fields of this time elsewhere, as `new` would make it.
    pub fn with(&self, partial: PartialTime, overflow: ArithmeticOverflow) -> (result: Result<
        IsoTime,
        TemporalError,
    >)
        ensures
            result is Err <==> overflow == ArithmeticOverflow::Reject && !is_valid_time(
                partial.hour_or(self.hour as int),
                partial.minute_or(self.minute as int),
                partial.second_or(self.second as int),
                partial.millisecond_or(self.millisecond as int),
                partial.microsecond_or(self.microsecond as int),
                partial.nanosecond_or(self.nanosecond as int),
            ),
            result matches Ok(time) ==> time == IsoTime::constrained(
                partial.hour_or(self.hour as int),
                partial.minute_or(self.minute as int),
                partial.second_or(self.second as int),
                partial.millisecond_or(self.millisecond as int),
                partial.microsecond_or(self.microsecond as int),
                partial.nanosecond_or(self.nanosecond as int),
            ) && time.spec_is_valid(),
            result matches Err(error) ==> error == range_error(),
    {
        let hour: i32 = match partial.hour {
            Some(hour) => hour,
            None => self.hour as i32,
        };
        let minute: i32 = match partial.minute {
            Some(minute) => minute,
            None => self.minute as i32,
        };
        let second: i32 = match partial.second {
            Some(second) => second,
            None => self.second as i32,
        };
        let millisecond: i32 = match partial.millisecond {
            Some(millisecond) => millisecond,
            None => self.millisecond as i32,
        };
        let microsecond: i32 = match partial.microsecond {
            Some(microsecond) => microsecond,
            None => self.microsecond as i32,
        };
        let nanosecond: i32 = match partial.nanosecond {
            Some(nanosecond) => nanosecond,
            None => self.nanosecond as i32,
        };
        IsoTime::new(hour, minute, second, millisecond, microsecond, nanosecond, overflow)
    }

    /// Whether every field is in its range.
    pub fn is_valid(&self) -> (yes: bool)
        ensures
            yes == self.spec_is_valid(),
    {
        self.hour <= 23 && self.minute <= 59 && self.second <= 59 && self.millisecond <= 999
            && self.microsecond <= 999 && self.nanosecond <= 999
    }

    /// Balances six fields of any sign into a time of day: from the
    /// nanoseconds upward, each field hands every whole multiple to the next
    /// coarser one, and the hours hand whole days out. Returns the days and
    /// the time.
    pub fn balance(
        hour: i128,
        minute: i128,
        second: i128,
        millisecond: i128,
        microsecond: i128,
        nanosecond: i128,
    ) -> (balanced: (i128, IsoTime))
        requires
            -BALANCE_LIMIT <= hour <= BALANCE_LIMIT,
            -BALANCE_LIMIT <= minute <= BALANCE_LIMIT,
            -BALANCE_LIMIT <= second <= BALANCE_LIMIT,
            -BALANCE_LIMIT <= millisecond <= BALANCE_LIMIT,
            -BALANCE_LIMIT <= microsecond <= BALANCE_LIMIT,
            -BALANCE_LIMIT <= nanosecond <= BALANCE_LIMIT,
        ensures
            balanced.0 == day_overflow(
                nanoseconds_of(
                    hour as int,
                    minute as int,
                    second as int,
                    millisecond as int,
                    microsecond as int,
                    nanosecond as int,
                ),
            ),
            balanced.1 == IsoTime::balanced(
                nanoseconds_of(
                    hour as int,
                    minute as int,
                    second as int,
                    millisecond as int,
                    microsecond as int,
                    nanosecond as int,
                ),
            ),
            balanced.1.spec_is_valid(),
    {
        let (to_microsecond, new_nanosecond) = carry_over(nanosecond, 1000);
        let (to_millisecond, new_microsecond) = carry_over(microsecond + to_microsecond, 1000);
        let (to_second, new_millisecond) = carry_over(millisecond + to_millisecond, 1000);
        let (to_minute, new_second) = carry_over(second + to_second, 60);
        let (to_hour, new_minute) = carry_over(minute + to_minute, 60);
        let (days, new_hour) = carry_over(hour + to_hour, 24);
        proof {
            let rest = nanoseconds_of(
                new_hour as int,
                new_minute as int,
                new_second as int,
                new_millisecond as int,
                new_microsecond as int,
                new_nanosecond as int,
            );
            let total = nanoseconds_of(
                hour as int,
                minute as int,
                second as int,
                millisecond as int,
                microsecond as int,
                nanosecond as int,
            );
            assert(total == days * 86_400_000_000_000 + rest);
            lemma_div_mod_unique(total, 86_400_000_000_000, days as int, rest);
            lemma_fields_of_day_nanoseconds(
                new_hour as int,
                new_minute as int,
                new_second as int,
                new_millisecond as int,
                new_microsecond as int,
                new_nanosecond as int,
            );
        }
        (
            days,
            IsoTime {
                hour: new_hour as u8,
                minute: new_minute as u8,
                second: new_second as u8,
                millisecond: new_millisecond as u16,
                microsecond: new_microsecond as u16,
                nanosecond: new_nanosecond as u16,
            },
        )
    }

    /// The exact duration from this time to `other`: the six differences of
    /// their fields, taken together.
    pub fn diff(&self, other: &IsoTime) -> (duration: NormalizedTimeDuration)
        ensures
            duration@ == other.total_nanoseconds() - self.total_nanoseconds(),
    {
        let hours: i128 = other.hour as i128 - self.hour as i128;
        let minutes: i128 = other.minute as i128 - self.minute as i128;
        let seconds: i128 = other.second as i128 - self.second as i128;
        let milliseconds: i128 = other.millisecond as i128 - self.millisecond as i128;
        let microseconds: i128 = other.microsecond as i128 - self.microsecond as i128;
        let nanoseconds: i128 = other.nanosecond as i128 - self.nanosecond as i128;
        let total: i128 = hours * NS_PER_HOUR + minutes * NS_PER_MINUTE + seconds * NS_PER_SECOND
            + milliseconds * NS_PER_MILLISECOND + microseconds * NS_PER_MICROSECOND + nanoseconds;
        NormalizedTimeDuration::new_unchecked(total)
    }

    /// Returns the part of the time that a rounding to `unit` works on, in
    /// nanoseconds; nothing for a unit that is not a unit of time.
    pub fn quantity_of(&self, unit: TemporalUnit) -> (quantity: i128)
        ensures
            quantity == self.quantity(unit),
            0 <= quantity <= 1_000_000_000_000_000,
    {
        let nanosecond: i128 = self.nanosecond as i128;
        let microsecond: i128 = self.microsecond as i128 * NS_PER_MICROSECOND + nanosecond;
        let millisecond: i128 = self.millisecond as i128 * NS_PER_MILLISECOND + microsecond;
        let second: i128 = self.second as i128 * NS_PER_SECOND + millisecond;
        let minute: i128 = self.minute as i128 * NS_PER_MINUTE + second;
        let hour: i128 = self.hour as i128 * NS_PER_HOUR + minute;
        match unit {
            TemporalUnit::Hour => hour,
            TemporalUnit::Minute => minute,
            TemporalUnit::Second => second,
            TemporalUnit::Millisecond => millisecond,
            TemporalUnit::Microsecond => microsecond,
            TemporalUnit::Nanosecond => nanosecond,
            _ => 0,
        }
    }

    /// Rounds the time to a multiple of the increment in the smallest unit of
    /// `options`: the field of that unit and all finer ones are rounded
    /// together, and what the rounding carries is balanced upward. Returns
    /// the days that the balancing hands out, and the time.
    ///
    /// Fails with a range error exactly when the smallest unit is not a unit
    /// of time.
    pub fn round(&self, options: ResolvedRoundingOptions) -> (result: Result<
        (i128, IsoTime),
        TemporalError,
    >)
        ensures
            result is Ok <==> options@.smallest_unit.spec_is_time_unit(),
            result matches Ok((days, time)) ==> {
                &&& days == day_overflow(self.rounded_nanoseconds(options@))
                &&& time == IsoTime::balanced(self.rounded_nanoseconds(options@))
                &&& time.spec_is_valid()
            },
            result matches Err(error) ==> error == range_error(),
    {
        let unit: TemporalUnit = options.smallest_unit;
        let length: i128 = match unit.as_nanoseconds() {
            Some(length) => length as i128,
            None => {
                return Err(TemporalError::range());
            },
        };
        let quantity: i128 = self.quantity_of(unit);
        let extended: i128 = options.increment.as_extended_increment();
        assert(0 < extended * length <= 1_000_000_000 * 3_600_000_000_000) by (nonlinear_arith)
            requires
                1 <= length <= 3_600_000_000_000,
                1 <= extended <= 1_000_000_000,
        ;
        let increment: i128 = extended * length;
        let rounder = match IncrementRounder::from_potentially_negative_parts(quantity, increment) {
            Ok(rounder) => rounder,
            Err(error) => {
                return Err(error);
            },
        };
        let rounded: i128 = rounder.round(options.rounding_mode);
        proof {
            lemma_round_is_near_multiple(
                quantity as int,
                increment as int,
                options.rounding_mode,
            );
            lemma_multiple_of_product(rounded as int, extended as int, length as int);
            lemma_div_mod_split(rounded as int, length as int);
        }
        let count: i128 = div_floor(rounded, length);
        proof {
            assert(rounded == count * length);
            lemma_scaled_count(count as int, length as int);
        }
        let hour: i128 = self.hour as i128;
        let minute: i128 = self.minute as i128;
        let second: i128 = self.second as i128;
        let millisecond: i128 = self.millisecond as i128;
        let microsecond: i128 = self.microsecond as i128;
        let balanced: (i128, IsoTime) = match unit {
            TemporalUnit::Hour => IsoTime::balance(count, 0, 0, 0, 0, 0),
            TemporalUnit::Minute => IsoTime::balance(hour, count, 0, 0, 0, 0),
            TemporalUnit::Second => IsoTime::balance(hour, minute, count, 0, 0, 0),
            TemporalUnit::Millisecond => IsoTime::balance(hour, minute, second, count, 0, 0),
            TemporalUnit::Microsecond => IsoTime::balance(
                hour,
                minute,
                second,
                millisecond,
                count,
                0,
            ),
            _ => IsoTime::balance(hour, minute, second, millisecond, microsecond, count),
        };
        Ok(balanced)
    }
}

/// Returns `value` moved into the range from `low` to `high`.
fn clamp(value: i32, low: i32, high: i32) -> (moved: i32)
    requires
        low <= high,
    ensures
        moved == clamped(value as int, low as int, high as int),
{
    if value < low {
        low
    } else if value > high {
        high
    } else {
        value
    }
}

/// Splits `value` into the whole multiples of `per_next` that go to the next
/// coarser field, and what stays.
fn carry_over(value: i128, per_next: i128) -> (split: (i128, i128))
    requires
        per_next > 0,
    ensures
        split.0 == value as int / per_next as int,
        split.1 == value as int % per_next as int,
        value == split.0 * per_next + split.1,
        0 <= split.1 < per_next,
{
    proof {
        lemma_div_mod_split(value as int, per_next as int);
    }
    (div_floor(value, per_next), rem_floor(value, per_next))
}

/// The product of a count and the length of a unit of time, with the length
/// written out.
proof fn lemma_scaled_count(count: int, length: int)
    ensures
        length == 1 ==> count * length == count,
        length == 1_000 ==> count * length == count * 1_000,
        length == 1_000_000 ==> count * length == count * 1_000_000,
        length == 1_000_000_000 ==> count * length == count * 1_000_000_000,
        length == 60_000_000_000 ==> count * length == count * 60_000_000_000,
        length == 3_600_000_000_000 ==> count * length == count * 3_600_000_000_000,
{
}

/// A multiple of a product is a multiple of each factor.
pub proof fn lemma_multiple_of_product(x: int, a: int, b: int)
    requires
        a > 0,
        b > 0,
        is_multiple(x, a * b),
    ensures
        is_multiple(x, b),
{
    assert(a * b > 0) by (nonlinear_arith)
        requires
            a > 0,
            b > 0,
    ;
    lemma_div_mod_split(x, a * b);
    let k = x / (a * b);
    assert(x == (k * a) * b + 0) by (nonlinear_arith)
        requires
            x == k * (a * b),
    ;
    lemma_div_mod_unique(x, b, k * a, 0);
}

/// The fields of a time of day are those of its nanoseconds from midnight:
/// six fields in range come to less than a day, and the time of that count
/// has the same six fields.
pub proof fn lemma_fields_of_day_nanoseconds(
    hour: int,
    minute: int,
    second: int,
    millisecond: int,
    microsecond: int,
    nanosecond: int,
)
    requires
        is_valid_time(hour, minute, second, millisecond, microsecond, nanosecond),
    ensures
        0 <= nanoseconds_of(hour, minute, second, millisecond, microsecond, nanosecond)
            < 86_400_000_000_000,
        IsoTime::from_day_nanoseconds(
            nanoseconds_of(hour, minute, second, millisecond, microsecond, nanosecond),
        ) == (IsoTime {
            hour: hour as u8,
            minute: minute as u8,
            second: second as u8,
            millisecond: millisecond as u16,
            microsecond: microsecond as u16,
            nanosecond: nanosecond as u16,
        }),
{
    let total = nanoseconds_of(hour, minute, second, millisecond, microsecond, nanosecond);
    let below_us = nanosecond;
    let below_ms = microsecond * 1_000 + below_us;
    let below_s = millisecond * 1_000_000 + below_ms;
    let below_min = second * 1_000_000_000 + below_s;
    let below_h = minute * 60_000_000_000 + below_min;
    lemma_div_mod_unique(total, 3_600_000_000_000, hour, below_h);
    lemma_div_mod_unique(total, 60_000_000_000, hour * 60 + minute, below_min);
    lemma_div_mod_unique(hour * 60 + minute, 60, hour, minute);
    lemma_div_mod_unique(total, 1_000_000_000, (hour * 60 + minute) * 60 + second, below_s);
    lemma_div_mod_unique((hour * 60 + minute) * 60 + second, 60, hour * 60 + minute, second);
    lemma_div_mod_unique(
        total,
        1_000_000,
        ((hour * 60 + minute) * 60 + second) * 1000 + millisecond,
        below_ms,
    );
    lemma_div_mod_unique(
        ((hour * 60 + minute) * 60 + second) * 1000 + millisecond,
        1000,
        (hour * 60 + minute) * 60 + second,
        millisecond,
    );
    lemma_div_mod_unique(
        total,
        1_000,
        (((hour * 60 + minute) * 60 + second) * 1000 + millisecond) * 1000 + microsecond,
        below_us,
    );
    lemma_div_mod_unique(
        (((hour * 60 + minute) * 60 + second) * 1000 + millisecond) * 1000 + microsecond,
        1000,
        ((hour * 60 + minute) * 60 + second) * 1000 + millisecond,
        microsecond,
    );
    lemma_div_mod_unique(
        total,
        1000,
        (((hour * 60 + minute) * 60 + second) * 1000 + millisecond) * 1000 + microsecond,
        nanosecond,
    );
}

/// A valid time is the time of its own nanoseconds from midnight.
pub proof fn lemma_valid_time_is_balanced(time: IsoTime)
    requires
        time.spec_is_valid(),
    ensures
        0 <= time.total_nanoseconds() < 86_400_000_000_000,
        IsoTime::balanced(time.total_nanoseconds()) == time,
        day_overflow(time.total_nanoseconds()) == 0,
{
    lemma_fields_of_day_nanoseconds(
        time.hour as int,
        time.minute as int,
        time.second as int,
        time.millisecond as int,
        time.microsecond as int,
        time.nanosecond as int,
    );
    lemma_div_mod_unique(time.total_nanoseconds(), 86_400_000_000_000, 0, time.total_nanoseconds());
}

/// The time of any count of nanoseconds is valid, and lies as far from
/// midnight as the count leaves of a day.
pub proof fn lemma_balanced_is_valid(nanoseconds: int)
    ensures
        IsoTime::balanced(nanoseconds).spec_is_valid(),
        IsoTime::balanced(nanoseconds).total_nanoseconds() == nanoseconds % 86_400_000_000_000,
{
    lemma_div_mod_split(nanoseconds, 86_400_000_000_000);
    let rest = nanoseconds % 86_400_000_000_000;
    crate::duration::lemma_division_chain(rest);
    crate::duration::lemma_balanced_counts(rest, 6);
    lemma_div_mod_split(rest, 3_600_000_000_000);
    lemma_div_mod_split(rest / 60_000_000_000, 60);
    lemma_div_mod_split(rest / 1_000_000_000, 60);
    lemma_div_mod_split(rest / 1_000_000, 1000);
    lemma_div_mod_split(rest / 1_000, 1000);
    lemma_div_mod_split(rest, 1000);
}

/// The nanoseconds that make up the next coarser unit after a unit of time: a
/// day for the hour, an hour for the minute, and so on down to a microsecond
/// for the nanosecond. Nothing for the other units.
pub open spec fn parent_length(unit: TemporalUnit) -> int {
    match unit {
        TemporalUnit::Hour => 86_400_000_000_000,
        TemporalUnit::Minute => 3_600_000_000_000,
        TemporalUnit::Second => 60_000_000_000,
        TemporalUnit::Millisecond => 1_000_000_000,
        TemporalUnit::Microsecond => 1_000_000,
        TemporalUnit::Nanosecond => 1_000,
        _ => 0,
    }
}

/// What a rounding of a valid time works on is what the time leaves of the
/// next coarser unit.
pub proof fn lemma_quantity_is_remainder(time: IsoTime, unit: TemporalUnit)
    requires
        time.spec_is_valid(),
        unit.spec_is_time_unit(),
    ensures
        time.quantity(unit) == time.total_nanoseconds() % parent_length(unit),
        0 <= time.quantity(unit) < parent_length(unit),
{
    let total = time.total_nanoseconds();
    let quantity = time.quantity(unit);
    let parent = parent_length(unit);
    let hour = time.hour as int;
    let minute = time.minute as int;
    let second = time.second as int;
    let millisecond = time.millisecond as int;
    let microsecond = time.microsecond as int;
    let above = match unit {
        TemporalUnit::Hour => 0,
        TemporalUnit::Minute => hour,
        TemporalUnit::Second => hour * 60 + minute,
        TemporalUnit::Millisecond => (hour * 60 + minute) * 60 + second,
        TemporalUnit::Microsecond => ((hour * 60 + minute) * 60 + second) * 1000 + millisecond,
        _ => (((hour * 60 + minute) * 60 + second) * 1000 + millisecond) * 1000 + microsecond,
    };
    assert(total == above * parent + quantity);
    lemma_div_mod_unique(total, parent, above, quantity);
}

/// A rounding within the next coarser unit leaves a multiple of the step
/// there: where `quantity` is what `total` leaves of `parent`, the step
/// divides `parent`, and `parent` divides the day, the total with its
/// quantity rounded leaves a multiple of the step of `parent`, whole days set
/// apart.
pub proof fn lemma_rounded_remainder(
    total: int,
    quantity: int,
    parent: int,
    step: int,
    mode: crate::options::TemporalRoundingMode,
)
    requires
        step > 0,
        parent > 0,
        is_multiple(parent, step),
        is_multiple(86_400_000_000_000, parent),
        0 <= quantity < parent,
        quantity == total % parent,
    ensures
        is_multiple(
            ((total - quantity + round_to_increment(quantity, step, mode)) % 86_400_000_000_000)
                % parent,
            step,
        ),
{
    let day = 86_400_000_000_000int;
    let rounded = round_to_increment(quantity, step, mode);
    lemma_round_is_near_multiple(quantity, step, mode);
    lemma_div_mod_split(total, parent);
    lemma_div_mod_split(parent, step);
    lemma_div_mod_split(rounded, step);
    lemma_div_mod_split(day, parent);
    let whole = total / parent;
    let steps = parent / step;
    let picked = rounded / step;
    let parents = day / parent;
    assert(0 <= picked <= steps) by (nonlinear_arith)
        requires
            step > 0,
            rounded == picked * step,
            parent == steps * step,
            0 <= quantity < parent,
            quantity - step < rounded < quantity + step,
    ;
    assert(0 <= rounded <= parent) by (nonlinear_arith)
        requires
            step > 0,
            rounded == picked * step,
            parent == steps * step,
            0 <= picked <= steps,
    ;
    let moved = total - quantity + rounded;
    lemma_div_mod_split(moved, day);
    let days = moved / day;
    let rest = moved % day;
    assert(days * day == (days * parents) * parent) by (nonlinear_arith)
        requires
            day == parents * parent,
    ;
    if rounded < parent {
        assert(rest == (whole - days * parents) * parent + rounded) by (nonlinear_arith)
            requires
                rest == moved - days * day,
                days * day == (days * parents) * parent,
                moved == total - quantity + rounded,
                total == whole * parent + quantity,
        ;
        lemma_div_mod_unique(rest, parent, whole - days * parents, rounded);
    } else {
        assert(rest == (whole - days * parents + 1) * parent + 0) by (nonlinear_arith)
            requires
                rest == moved - days * day,
                days * day == (days * parents) * parent,
                moved == total - quantity + rounded,
                total == whole * parent + quantity,
                rounded == parent,
        ;
        lemma_div_mod_unique(rest, parent, whole - days * parents + 1, 0);
        lemma_div_mod_unique(0, step, 0, 0);
    }
}

} // verus!
