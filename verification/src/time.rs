//! A wall-clock time of day.

use vstd::prelude::*;

use crate::duration::{difference_of, Duration, TimeDuration};
use crate::error::{range_error, type_error, TemporalError};
use crate::iso::{
    day_overflow,
    is_valid_time,
    lemma_balanced_is_valid,
    lemma_quantity_is_remainder,
    lemma_rounded_remainder,
    lemma_valid_time_is_balanced,
    parent_length,
    IsoTime,
};
use crate::math::{lemma_div_mod_split, lemma_div_mod_unique};
use crate::normalized::{lemma_rounding_stays_in_range, NormalizedTimeDuration};
use crate::parsers::{parse_time, time_of_text, TimeRecord};
use crate::options::{
    increment_fits,
    ArithmeticOverflow,
    DifferenceOperation,
    DifferenceSettings,
    ResolvedRoundingOptions,
    ResolvedRoundingOptionsView,
    RoundingIncrement,
    TemporalRoundingMode,
    TemporalUnit,
};

verus! {

/// The fields of a time of day, each of which may be absent.
#[derive(Debug, Clone, Copy, PartialEq, Eq, Structural)]
pub struct PartialTime {
    pub hour: Option<i32>,
    pub minute: Option<i32>,
    pub second: Option<i32>,
    pub millisecond: Option<i32>,
    pub microsecond: Option<i32>,
    pub nanosecond: Option<i32>,
}

/// The value of a field that may be absent, or `fallback`.
pub open spec fn field_or(field: Option<i32>, fallback: int) -> int {
    match field {
        Some(value) => value as int,
        None => fallback,
    }
}

impl PartialTime {
    /// Whether no field is present.
    pub open spec fn spec_is_empty(self) -> bool {
        &&& self.hour is None
        &&& self.minute is None
        &&& self.second is None
        &&& self.millisecond is None
        &&& self.microsecond is None
        &&& self.nanosecond is None
    }

    /// The hour, or `fallback`.
    pub open spec fn hour_or(self, fallback: int) -> int {
        field_or(self.hour, fallback)
    }

    /// The minute, or `fallback`.
    pub open spec fn minute_or(self, fallback: int) -> int {
        field_or(self.minute, fallback)
    }

    /// The second, or `fallback`.
    pub open spec fn second_or(self, fallback: int) -> int {
        field_or(self.second, fallback)
    }

    /// The millisecond, or `fallback`.
    pub open spec fn millisecond_or(self, fallback: int) -> int {
        field_or(self.millisecond, fallback)
    }

    /// The microsecond, or `fallback`.
    pub open spec fn microsecond_or(self, fallback: int) -> int {
        field_or(self.microsecond, fallback)
    }

    /// The nanosecond, or `fallback`.
    pub open spec fn nanosecond_or(self, fallback: int) -> int {
        field_or(self.nanosecond, fallback)
    }

    /// Whether no field is present.
    pub fn is_empty(&self) -> (yes: bool)
        ensures
            yes == self.spec_is_empty(),
    {
        self.hour.is_none() && self.minute.is_none() && self.second.is_none()
            && self.millisecond.is_none() && self.microsecond.is_none()
            && self.nanosecond.is_none()
    }
}

impl Default for PartialTime {
    fn default() -> (partial: PartialTime)
        ensures
            partial.spec_is_empty(),
    {
        PartialTime {
            hour: None,
            minute: None,
            second: None,
            millisecond: None,
            microsecond: None,
            nanosecond: None,
        }
    }
}

/// A wall-clock time of day, with no date. Its view is its six fields.
#[derive(Debug, Clone, Copy, PartialEq, Eq, PartialOrd, Ord)]
pub struct PlainTime {
    iso: IsoTime,
}

impl View for PlainTime {
    type V = IsoTime;

    closed spec fn view(&self) -> IsoTime {
        self.iso
    }
}

/// The increment of a rounding: the one asked for, or 1.
pub open spec fn increment_or_one(increment: Option<i64>) -> int {
    match increment {
        Some(increment) => increment as int,
        None => 1,
    }
}

/// The mode of a rounding: the one asked for, or `HalfExpand`.
pub open spec fn mode_or_default(mode: Option<TemporalRoundingMode>) -> TemporalRoundingMode {
    match mode {
        Some(mode) => mode,
        None => TemporalRoundingMode::HalfExpand,
    }
}

/// The overflow policy: the one asked for, or `Constrain`.
pub open spec fn overflow_or_constrain(overflow: Option<ArithmeticOverflow>) -> ArithmeticOverflow {
    match overflow {
        Some(overflow) => overflow,
        None => ArithmeticOverflow::Constrain,
    }
}

/// Whether a time of day can be rounded to `increment` of `unit`: the unit is
/// a unit of time, and the increment is less than the number of such units in
/// the next coarser one and divides that number.
pub open spec fn time_rounding_admitted(unit: TemporalUnit, increment: int) -> bool {
    match unit.maximum_rounding_increment() {
        Some(maximum) => increment_fits(increment, maximum, false),
        None => false,
    }
}

/// The options of a rounding of a time of day, as plain values.
pub open spec fn time_rounding_options(
    unit: TemporalUnit,
    increment: int,
    mode: TemporalRoundingMode,
) -> ResolvedRoundingOptionsView {
    ResolvedRoundingOptionsView {
        largest_unit: TemporalUnit::Auto,
        smallest_unit: unit,
        increment,
        rounding_mode: mode,
    }
}

/// Whether a parsed time is a time of day: hour below 24, minute and second
/// below 60, and a fraction of less than a second.
pub open spec fn time_record_in_range(record: TimeRecord) -> bool {
    record.hour <= 23 && record.minute <= 59 && record.second <= 59 && record.nanosecond
        <= 999_999_999
}

/// The fields of a parsed time: hour, minute and second as they are, and the
/// fraction split into milliseconds, microseconds and nanoseconds.
pub open spec fn time_of_record(record: TimeRecord) -> IsoTime {
    IsoTime {
        hour: record.hour,
        minute: record.minute,
        second: record.second,
        millisecond: (record.nanosecond / 1_000_000) as u16,
        microsecond: (record.nanosecond / 1_000 % 1_000) as u16,
        nanosecond: (record.nanosecond % 1_000) as u16,
    }
}

impl PlainTime {
    /// Makes a time of fields as they are.
    pub fn new_unchecked(iso: IsoTime) -> (time: PlainTime)
        ensures
            time@ == iso,
    {
        PlainTime { iso }
    }

    /// Whether every field is in its range.
    pub fn is_valid(&self) -> (yes: bool)
        ensures
            yes == self@.spec_is_valid(),
    {
        self.iso.is_valid()
    }

    /// Adds an exact length to the time: its whole seconds to the second, the
    /// rest to the nanosecond, and balances. Returns the days that the sum
    /// runs over, and the time of day it falls on.
    pub fn add_normalized_time_duration(&self, norm: NormalizedTimeDuration) -> (sum: (
        i128,
        PlainTime,
    ))
        ensures
            sum.0 == day_overflow(self@.total_nanoseconds() + norm@),
            sum.1@ == IsoTime::balanced(self@.total_nanoseconds() + norm@),
            sum.1@.spec_is_valid(),
    {
        let second: i128 = self.iso.second as i128 + norm.seconds() as i128;
        let nanosecond: i128 = self.iso.nanosecond as i128 + norm.subseconds() as i128;
        let (days, iso) = IsoTime::balance(
            self.iso.hour as i128,
            self.iso.minute as i128,
            second,
            self.iso.millisecond as i128,
            self.iso.microsecond as i128,
            nanosecond,
        );
        (days, PlainTime { iso })
    }

    /// Adds a time duration to the time, field by field, and balances.
    /// Returns the days that the sum runs over, and the time of day it falls
    /// on.
    pub fn add_to_time(&self, duration: &TimeDuration) -> (sum: (i128, PlainTime))
        ensures
            sum.0 == day_overflow(self@.total_nanoseconds() + duration@.total_nanoseconds()),
            sum.1@ == IsoTime::balanced(
                self@.total_nanoseconds() + duration@.total_nanoseconds(),
            ),
            sum.1@.spec_is_valid(),
    {
        proof {
            use_type_invariant(duration);
        }
        let (days, iso) = IsoTime::balance(
            self.iso.hour as i128 + duration.hours(),
            self.iso.minute as i128 + duration.minutes(),
            self.iso.second as i128 + duration.seconds(),
            self.iso.millisecond as i128 + duration.milliseconds(),
            self.iso.microsecond as i128 + duration.microseconds(),
            self.iso.nanosecond as i128 + duration.nanoseconds(),
        );
        (days, PlainTime { iso })
    }

    /// Reports the exact length from this time to `other` as a difference
    /// under the settings, the largest unit defaulting to the hour.
    ///
    /// Fails with a range error exactly when the settings cannot be resolved
    /// or name a largest unit of a day or coarser.
    pub fn diff_time(
        &self,
        op: DifferenceOperation,
        other: &PlainTime,
        settings: DifferenceSettings,
    ) -> (result: Result<Duration, TemporalError>)
        ensures
            result is Ok <==> {
                &&& settings@.resolvable(TemporalUnit::Hour, TemporalUnit::Nanosecond)
                &&& settings@.largest_or(
                    TemporalUnit::Hour,
                    TemporalUnit::Nanosecond,
                ).spec_is_time_unit()
            },
            result matches Ok(duration) ==> {
                &&& duration@.is_time_duration()
                &&& Some(duration@.time) == difference_of(
                    other@.total_nanoseconds() - self@.total_nanoseconds(),
                    op,
                    settings@,
                    TemporalUnit::Hour,
                )
            },
            result matches Err(error) ==> error == range_error(),
    {
        let delta: NormalizedTimeDuration = self.iso.diff(&other.iso);
        proof {
            let resolved = settings@.resolved(TemporalUnit::Hour, TemporalUnit::Nanosecond);
            if settings@.resolvable(TemporalUnit::Hour, TemporalUnit::Nanosecond)
                && resolved.largest_unit.spec_is_time_unit() {
                lemma_rounding_stays_in_range(delta@, resolved);
            }
        }
        match TimeDuration::difference(delta, op, settings, TemporalUnit::Hour) {
            Ok(time) => Ok(Duration::from_time_duration(time)),
            Err(error) => Err(error),
        }
    }

    /// Makes a time of six fields, each moved into its range by itself.
    pub fn new(
        hour: i32,
        minute: i32,
        second: i32,
        millisecond: i32,
        microsecond: i32,
        nanosecond: i32,
    ) -> (result: Result<PlainTime, TemporalError>)
        ensures
            result is Ok,
            result matches Ok(time) ==> time@ == IsoTime::constrained(
                hour as int,
                minute as int,
                second as int,
                millisecond as int,
                microsecond as int,
                nanosecond as int,
            ) && time@.spec_is_valid(),
    {
        PlainTime::new_with_overflow(
            hour,
            minute,
            second,
            millisecond,
            microsecond,
            nanosecond,
            ArithmeticOverflow::Constrain,
        )
    }

    /// Makes a time of six fields. Fails with a range error exactly when a
    /// field is out of range.
    pub fn try_new(
        hour: i32,
        minute: i32,
        second: i32,
        millisecond: i32,
        microsecond: i32,
        nanosecond: i32,
    ) -> (result: Result<PlainTime, TemporalError>)
        ensures
            result is Ok <==> is_valid_time(
                hour as int,
                minute as int,
                second as int,
                millisecond as int,
                microsecond as int,
                nanosecond as int,
            ),
            result matches Ok(time) ==> time@ == (IsoTime {
                hour: hour as u8,
                minute: minute as u8,
                second: second as u8,
                millisecond: millisecond as u16,
                microsecond: microsecond as u16,
                nanosecond: nanosecond as u16,
            }),
            result matches Err(error) ==> error == range_error(),
    {
        PlainTime::new_with_overflow(
            hour,
            minute,
            second,
            millisecond,
            microsecond,
            nanosecond,
            ArithmeticOverflow::Reject,
        )
    }

    /// Makes a time of six fields. With `Constrain` each field is moved into
    /// its range by itself, with no carrying between fields; with `Reject`
    /// the call fails with a range error exactly when a field is out of
    /// range.
    pub fn new_with_overflow(
        hour: i32,
        minute: i32,
        second: i32,
        millisecond: i32,
        microsecond: i32,
        nanosecond: i32,
        overflow: ArithmeticOverflow,
    ) -> (result: Result<PlainTime, TemporalError>)
        ensures
            result is Err <==> overflow == ArithmeticOverflow::Reject && !is_valid_time(
                hour as int,
                minute as int,
                second as int,
                millisecond as int,
                microsecond as int,
                nanosecond as int,
            ),
            result matches Ok(time) ==> time@ == IsoTime::constrained(
                hour as int,
                minute as int,
                second as int,
                millisecond as int,
                microsecond as int,
                nanosecond as int,
            ) && time@.spec_is_valid(),
            result matches Err(error) ==> error == range_error(),
    {
        match IsoTime::new(hour, minute, second, millisecond, microsecond, nanosecond, overflow) {
            Ok(iso) => Ok(PlainTime { iso }),
            Err(error) => Err(error),
        }
    }

    /// Makes the time that has the fields of `partial` where it gives one and
    /// the fields of this time elsewhere, checked as a new time is; the
    /// overflow policy defaults to `Constrain`.
    ///
    /// Fails with a type error exactly when `partial` gives no field, and
    /// otherwise with a range error exactly when the policy is `Reject` and
    /// one of the overlaid fields is out of range.
    pub fn with(&self, partial: PartialTime, overflow: Option<ArithmeticOverflow>) -> (result:
        Result<PlainTime, TemporalError>)
        ensures
            result is Err <==> partial.spec_is_empty() || (overflow_or_constrain(overflow)
                == ArithmeticOverflow::Reject && !is_valid_time(
                partial.hour_or(self@.hour as int),
                partial.minute_or(self@.minute as int),
                partial.second_or(self@.second as int),
                partial.millisecond_or(self@.millisecond as int),
                partial.microsecond_or(self@.microsecond as int),
                partial.nanosecond_or(self@.nanosecond as int),
            )),
            result matches Ok(time) ==> time@ == IsoTime::constrained(
                partial.hour_or(self@.hour as int),
                partial.minute_or(self@.minute as int),
                partial.second_or(self@.second as int),
                partial.millisecond_or(self@.millisecond as int),
                partial.microsecond_or(self@.microsecond as int),
                partial.nanosecond_or(self@.nanosecond as int),
            ) && time@.spec_is_valid(),
            result matches Err(error) ==> error == (if partial.spec_is_empty() {
                type_error()
            } else {
                range_error()
            }),
    {
        if partial.is_empty() {
            return Err(TemporalError::type_error());
        }
        let policy: ArithmeticOverflow = match overflow {
            Some(policy) => policy,
            None => ArithmeticOverflow::Constrain,
        };
        match self.iso.with(partial, policy) {
            Ok(iso) => Ok(PlainTime { iso }),
            Err(error) => Err(error),
        }
    }

    /// Returns the hour.
    pub fn hour(&self) -> (hour: u8)
        ensures
            hour == self@.hour,
    {
        self.iso.hour
    }

    /// Returns the minute.
    pub fn minute(&self) -> (minute: u8)
        ensures
            minute == self@.minute,
    {
        self.iso.minute
    }

    /// Returns the second.
    pub fn second(&self) -> (second: u8)
        ensures
            second == self@.second,
    {
        self.iso.second
    }

    /// Returns the millisecond.
    pub fn millisecond(&self) -> (millisecond: u16)
        ensures
            millisecond == self@.millisecond,
    {
        self.iso.millisecond
    }

    /// Returns the microsecond.
    pub fn microsecond(&self) -> (microsecond: u16)
        ensures
            microsecond == self@.microsecond,
    {
        self.iso.microsecond
    }

    /// Returns the nanosecond.
    pub fn nanosecond(&self) -> (nanosecond: u16)
        ensures
            nanosecond == self@.nanosecond,
    {
        self.iso.nanosecond
    }

    /// Adds a duration to the time and returns the time of day that the sum
    /// falls on; `add_to_time` also reports the days it runs over.
    ///
    /// Fails with a range error exactly when the duration has a date part.
    pub fn add(&self, duration: &Duration) -> (result: Result<PlainTime, TemporalError>)
        ensures
            result is Ok <==> duration@.is_time_duration(),
            result matches Ok(time) ==> time@ == IsoTime::balanced(
                self@.total_nanoseconds() + duration@.time.total_nanoseconds(),
            ) && time@.spec_is_valid(),
            result matches Err(error) ==> error == range_error(),
    {
        if !duration.is_time_duration() {
            return Err(TemporalError::range());
        }
        self.add_time_duration(duration.time())
    }

    /// Adds a time duration to the time and returns the time of day that the
    /// sum falls on.
    pub fn add_time_duration(&self, duration: &TimeDuration) -> (result: Result<
        PlainTime,
        TemporalError,
    >)
        ensures
            result is Ok,
            result matches Ok(time) ==> time@ == IsoTime::balanced(
                self@.total_nanoseconds() + duration@.total_nanoseconds(),
            ) && time@.spec_is_valid(),
    {
        let (_, time) = self.add_to_time(duration);
        Ok(time)
    }

    /// Subtracts a duration from the time and returns the time of day that
    /// the difference falls on.
    ///
    /// Fails with a range error exactly when the duration has a date part.
    pub fn subtract(&self, duration: &Duration) -> (result: Result<PlainTime, TemporalError>)
        ensures
            result is Ok <==> duration@.is_time_duration(),
            result matches Ok(time) ==> time@ == IsoTime::balanced(
                self@.total_nanoseconds() - duration@.time.total_nanoseconds(),
            ) && time@.spec_is_valid(),
            result matches Err(error) ==> error == range_error(),
    {
        if !duration.is_time_duration() {
            return Err(TemporalError::range());
        }
        self.subtract_time_duration(duration.time())
    }

    /// Subtracts a time duration from the time and returns the time of day
    /// that the difference falls on.
    pub fn subtract_time_duration(&self, duration: &TimeDuration) -> (result: Result<
        PlainTime,
        TemporalError,
    >)
        ensures
            result is Ok,
            result matches Ok(time) ==> time@ == IsoTime::balanced(
                self@.total_nanoseconds() - duration@.total_nanoseconds(),
            ) && time@.spec_is_valid(),
    {
        let negated: TimeDuration = duration.negated();
        let (_, time) = self.add_to_time(&negated);
        Ok(time)
    }

    /// Returns the duration from this time until `other`: positive where
    /// `other` is the later time of day.
    ///
    /// Fails with a range error exactly when the settings cannot be resolved
    /// or name a largest unit of a day or coarser.
    pub fn until(&self, other: &PlainTime, settings: DifferenceSettings) -> (result: Result<
        Duration,
        TemporalError,
    >)
        ensures
            result is Ok <==> {
                &&& settings@.resolvable(TemporalUnit::Hour, TemporalUnit::Nanosecond)
                &&& settings@.largest_or(
                    TemporalUnit::Hour,
                    TemporalUnit::Nanosecond,
                ).spec_is_time_unit()
            },
            result matches Ok(duration) ==> {
                &&& duration@.is_time_duration()
                &&& Some(duration@.time) == difference_of(
                    other@.total_nanoseconds() - self@.total_nanoseconds(),
                    DifferenceOperation::Until,
                    settings@,
                    TemporalUnit::Hour,
                )
            },
            result matches Err(error) ==> error == range_error(),
    {
        self.diff_time(DifferenceOperation::Until, other, settings)
    }

    /// Returns the duration to this time since `other`: positive where
    /// `other` is the earlier time of day.
    ///
    /// Fails with a range error exactly when the settings cannot be resolved
    /// or name a largest unit of a day or coarser.
    pub fn since(&self, other: &PlainTime, settings: DifferenceSettings) -> (result: Result<
        Duration,
        TemporalError,
    >)
        ensures
            result is Ok <==> {
                &&& settings@.resolvable(TemporalUnit::Hour, TemporalUnit::Nanosecond)
                &&& settings@.largest_or(
                    TemporalUnit::Hour,
                    TemporalUnit::Nanosecond,
                ).spec_is_time_unit()
            },
            result matches Ok(duration) ==> {
                &&& duration@.is_time_duration()
                &&& Some(duration@.time) == difference_of(
                    other@.total_nanoseconds() - self@.total_nanoseconds(),
                    DifferenceOperation::Since,
                    settings@,
                    TemporalUnit::Hour,
                )
            },
            result matches Err(error) ==> error == range_error(),
    {
        self.diff_time(DifferenceOperation::Since, other, settings)
    }

    /// Rounds the time to a multiple of the increment in `smallest_unit`.
    /// The increment defaults to 1 and the mode to `HalfExpand`. A rounding
    /// that reaches the end of the day comes out as midnight.
    ///
    /// Fails with a range error exactly when the unit is not a unit of time,
    /// or the increment is not less than the number of such units in the next
    /// coarser one, or does not divide that number.
    pub fn round(
        &self,
        smallest_unit: TemporalUnit,
        rounding_increment: Option<i64>,
        rounding_mode: Option<TemporalRoundingMode>,
    ) -> (result: Result<PlainTime, TemporalError>)
        ensures
            result is Ok <==> time_rounding_admitted(
                smallest_unit,
                increment_or_one(rounding_increment),
            ),
            result matches Ok(time) ==> time@ == IsoTime::balanced(
                self@.rounded_nanoseconds(
                    time_rounding_options(
                        smallest_unit,
                        increment_or_one(rounding_increment),
                        mode_or_default(rounding_mode),
                    ),
                ),
            ) && time@.spec_is_valid(),
            result matches Err(error) ==> error == range_error(),
    {
        let asked: i64 = match rounding_increment {
            Some(asked) => asked,
            None => 1,
        };
        let increment: RoundingIncrement = match RoundingIncrement::try_from_integer(asked) {
            Ok(increment) => increment,
            Err(error) => {
                return Err(error);
            },
        };
        let rounding_mode: TemporalRoundingMode = match rounding_mode {
            Some(mode) => mode,
            None => TemporalRoundingMode::HalfExpand,
        };
        let maximum: u16 = match smallest_unit.to_maximum_rounding_increment() {
            Some(maximum) => maximum,
            None => {
                return Err(TemporalError::range());
            },
        };
        match increment.validate(maximum as u64, false) {
            Ok(()) => {},
            Err(error) => {
                return Err(error);
            },
        }
        let resolved = ResolvedRoundingOptions {
            largest_unit: TemporalUnit::Auto,
            increment,
            smallest_unit,
            rounding_mode,
        };
        match self.iso.round(resolved) {
            Ok((_, iso)) => Ok(PlainTime { iso }),
            Err(error) => Err(error),
        }
    }

    /// Reads a time of day from a text that holds a time, or a date and time,
    /// such as `T12:05:24.5`. Fails with a range error exactly when the text
    /// gives no time or a field of the time is out of range.
    pub fn parse(source: &str) -> (result: Result<PlainTime, TemporalError>)
        ensures
            result is Ok <==> time_of_text(source@) is Ok && time_record_in_range(
                time_of_text(source@).unwrap(),
            ),
            result matches Ok(time) ==> time@ == time_of_record(time_of_text(source@).unwrap()),
            result matches Err(error) ==> error == range_error(),
    {
        match parse_time(source) {
            Ok(record) => PlainTime::from_time_record(
                record.hour,
                record.minute,
                record.second,
                record.nanosecond,
            ),
            Err(error) => Err(error),
        }
    }

    /// Makes a time of the hour, minute and second of a parsed time and its
    /// fraction of a second in nanoseconds. Fails with a range error exactly
    /// when a field is out of range.
    pub fn from_time_record(hour: u8, minute: u8, second: u8, nanosecond: u32) -> (result: Result<
        PlainTime,
        TemporalError,
    >)
        ensures
            result is Ok <==> time_record_in_range(
                TimeRecord { hour, minute, second, nanosecond },
            ),
            result matches Ok(time) ==> time@ == time_of_record(
                TimeRecord { hour, minute, second, nanosecond },
            ),
            result matches Err(error) ==> error == range_error(),
    {
        let millisecond: u32 = nanosecond / 1_000_000;
        let rest: u32 = nanosecond % 1_000_000;
        let microsecond: u32 = rest / 1_000;
        let nanosecond_field: u32 = rest % 1_000;
        PlainTime::new_with_overflow(
            hour as i32,
            minute as i32,
            second as i32,
            millisecond as i32,
            microsecond as i32,
            nanosecond_field as i32,
            ArithmeticOverflow::Reject,
        )
    }
}

/// A time of day that a length is added to, and then subtracted from, is the
/// time it was, and the days that the two steps run over cancel out.
///
/// `by` is the length in nanoseconds: `add_to_time` turns a valid `time` into
/// the time `later` and reports `day_overflow(time + by)` days, and
/// subtracting the same length from `later` gives `time` back and reports
/// the opposite number of days.
pub proof fn lemma_add_then_subtract_time(time: IsoTime, by: int)
    requires
        time.spec_is_valid(),
    ensures
        ({
            let later = IsoTime::balanced(time.total_nanoseconds() + by);
            &&& later.spec_is_valid()
            &&& IsoTime::balanced(later.total_nanoseconds() - by) == time
            &&& day_overflow(time.total_nanoseconds() + by) + day_overflow(
                later.total_nanoseconds() - by,
            ) == 0
        }),
{
    let day = 86_400_000_000_000int;
    let start = time.total_nanoseconds();
    let sum = start + by;
    lemma_valid_time_is_balanced(time);
    lemma_balanced_is_valid(sum);
    lemma_div_mod_split(sum, day);
    let days = sum / day;
    let rest = sum % day;
    assert(rest - by == (-days) * day + start);
    lemma_div_mod_unique(rest - by, day, -days, start);
}

/// Rounding a time of day is idempotent: a time that a rounding returned is
/// returned unchanged by a second rounding with the same unit, increment and
/// mode.
pub proof fn lemma_time_rounding_idempotent(
    time: IsoTime,
    unit: TemporalUnit,
    increment: int,
    mode: TemporalRoundingMode,
)
    requires
        time.spec_is_valid(),
        time_rounding_admitted(unit, increment),
    ensures
        ({
            let options = time_rounding_options(unit, increment, mode);
            let once = IsoTime::balanced(time.rounded_nanoseconds(options));
            IsoTime::balanced(once.rounded_nanoseconds(options)) == once
        }),
{
    let options = time_rounding_options(unit, increment, mode);
    let length = unit.nanoseconds().unwrap();
    let maximum = unit.maximum_rounding_increment().unwrap();
    let parent = parent_length(unit);
    let step = increment * length;
    assert(parent == maximum * length);
    lemma_div_mod_split(maximum, increment);
    let parts = maximum / increment;
    assert(step > 0 && parent == parts * step + 0) by (nonlinear_arith)
        requires
            maximum == parts * increment,
            parent == maximum * length,
            step == increment * length,
            increment >= 1,
            length >= 1,
    ;
    lemma_div_mod_unique(parent, step, parts, 0);
    lemma_quantity_is_remainder(time, unit);
    lemma_rounded_remainder(time.total_nanoseconds(), time.quantity(unit), parent, step, mode);
    let moved = time.rounded_nanoseconds(options);
    let once = IsoTime::balanced(moved);
    lemma_balanced_is_valid(moved);
    lemma_quantity_is_remainder(once, unit);
    lemma_valid_time_is_balanced(once);
}

impl Default for PlainTime {
    /// Midnight.
    fn default() -> (time: PlainTime)
        ensures
            time@ == (IsoTime {
                hour: 0,
                minute: 0,
                second: 0,
                millisecond: 0,
                microsecond: 0,
                nanosecond: 0,
            }),
    {
        PlainTime { iso: IsoTime::new_unchecked(0, 0, 0, 0, 0, 0) }
    }
}

impl core::str::FromStr for PlainTime {
    type Err = TemporalError;

    fn from_str(source: &str) -> (result: Result<PlainTime, TemporalError>)
        ensures
            result is Ok <==> time_of_text(source@) is Ok && time_record_in_range(
                time_of_text(source@).unwrap(),
            ),
            result matches Ok(time) ==> time@ == time_of_record(time_of_text(source@).unwrap()),
            result matches Err(error) ==> error == range_error(),
    {
        PlainTime::parse(source)
    }
}

} // verus!
