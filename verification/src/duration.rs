//! Durations: a date part that is carried along, and a time part of six
//! integer components that share one sign.

use vstd::prelude::*;

use crate::error::{range_error, TemporalError};
use crate::math::{abs, lemma_div_mod_split, lemma_div_mod_unique};
use crate::normalized::{in_duration_range, rounded_duration, NormalizedTimeDuration};
use crate::parsers::{duration_of_text, parse_duration, DurationRecord, TimeDurationRecord};
use crate::options::{
    DifferenceOperation,
    DifferenceSettings,
    DifferenceSettingsView,
    ResolvedRoundingOptions,
    TemporalUnit,
};
use crate::{
    Sign,
    MAX_TIME_DURATION,
    NS_PER_HOUR,
    NS_PER_MICROSECOND,
    NS_PER_MILLISECOND,
    NS_PER_MINUTE,
    NS_PER_SECOND,
};

verus! {

/// The six components of a time duration.
pub struct TimeDurationView {
    pub hours: int,
    pub minutes: int,
    pub seconds: int,
    pub milliseconds: int,
    pub microseconds: int,
    pub nanoseconds: int,
}

impl TimeDurationView {
    /// The exact length in nanoseconds.
    pub open spec fn total_nanoseconds(self) -> int {
        self.hours * 3_600_000_000_000 + self.minutes * 60_000_000_000 + self.seconds
            * 1_000_000_000 + self.milliseconds * 1_000_000 + self.microseconds * 1_000
            + self.nanoseconds
    }

    /// No component is negative.
    pub open spec fn none_negative(self) -> bool {
        &&& self.hours >= 0
        &&& self.minutes >= 0
        &&& self.seconds >= 0
        &&& self.milliseconds >= 0
        &&& self.microseconds >= 0
        &&& self.nanoseconds >= 0
    }

    /// No component is positive.
    pub open spec fn none_positive(self) -> bool {
        &&& self.hours <= 0
        &&& self.minutes <= 0
        &&& self.seconds <= 0
        &&& self.milliseconds <= 0
        &&& self.microseconds <= 0
        &&& self.nanoseconds <= 0
    }

    /// The components share one sign, and the length is less than 2^53
    /// seconds.
    pub open spec fn is_valid(self) -> bool {
        &&& self.none_negative() || self.none_positive()
        &&& in_duration_range(self.total_nanoseconds())
    }

    /// Every component negated.
    pub open spec fn negated(self) -> TimeDurationView {
        TimeDurationView {
            hours: -self.hours,
            minutes: -self.minutes,
            seconds: -self.seconds,
            milliseconds: -self.milliseconds,
            microseconds: -self.microseconds,
            nanoseconds: -self.nanoseconds,
        }
    }

    /// Every component replaced by its magnitude.
    pub open spec fn magnitude(self) -> TimeDurationView {
        if self.none_negative() {
            self
        } else {
            self.negated()
        }
    }

    /// Whether the components stand in balance below `largest_unit`: those
    /// above it are zero, and each below it is less in magnitude than the
    /// number of its unit that makes up the next one.
    pub open spec fn is_balanced(self, largest_unit: TemporalUnit) -> bool {
        let top = largest_unit.spec_ordinal();
        &&& top < 6 ==> self.hours == 0
        &&& top < 5 ==> self.minutes == 0
        &&& top < 4 ==> self.seconds == 0
        &&& top < 3 ==> self.milliseconds == 0
        &&& top < 2 ==> self.microseconds == 0
        &&& top > 6 ==> abs(self.hours) < 24
        &&& top > 5 ==> abs(self.minutes) < 60
        &&& top > 4 ==> abs(self.seconds) < 60
        &&& top > 3 ==> abs(self.milliseconds) < 1000
        &&& top > 2 ==> abs(self.microseconds) < 1000
        &&& top > 1 ==> abs(self.nanoseconds) < 1000
    }
}

/// The count of a unit in a magnitude of nanoseconds that is balanced up to
/// a largest unit: nothing of a unit above the largest, every whole one of the
/// largest unit itself, and of a unit below it what the next unit leaves.
///
/// `length` is the unit's length in nanoseconds, `ordinal` its ordinal,
/// `per_next` how many of it make up the next coarser unit, and `top` the
/// ordinal of the largest unit.
pub open spec fn balanced_count(
    magnitude: int,
    length: int,
    per_next: int,
    ordinal: int,
    top: int,
) -> int {
    if top < ordinal {
        0
    } else if top == ordinal {
        magnitude / length
    } else {
        (magnitude / length) % per_next
    }
}

/// The days that balancing a count of nanoseconds up to `largest_unit` sets
/// apart: none unless the largest unit is a day or coarser.
pub open spec fn balanced_days(nanoseconds: int, largest_unit: TemporalUnit) -> int {
    let sign = Sign::of(nanoseconds).factor();
    if largest_unit.spec_ordinal() >= 7 {
        sign * (abs(nanoseconds) / 86_400_000_000_000)
    } else {
        0
    }
}

/// A count of nanoseconds balanced up to `largest_unit`: every component has
/// the sign of the count.
pub open spec fn balanced_time(nanoseconds: int, largest_unit: TemporalUnit) -> TimeDurationView {
    let sign = Sign::of(nanoseconds).factor();
    let magnitude = abs(nanoseconds);
    let top = largest_unit.spec_ordinal();
    TimeDurationView {
        hours: sign * balanced_count(magnitude, 3_600_000_000_000, 24, 6, top),
        minutes: sign * balanced_count(magnitude, 60_000_000_000, 60, 5, top),
        seconds: sign * balanced_count(magnitude, 1_000_000_000, 60, 4, top),
        milliseconds: sign * balanced_count(magnitude, 1_000_000, 1000, 3, top),
        microseconds: sign * balanced_count(magnitude, 1_000, 1000, 2, top),
        nanoseconds: sign * balanced_count(magnitude, 1, 1000, 1, top),
    }
}

/// A balanced difference with the sign of the operation applied: as it is for
/// `Until`, negated for `Since`.
pub open spec fn directed(time: TimeDurationView, operation: DifferenceOperation) -> TimeDurationView {
    match operation {
        DifferenceOperation::Until => time,
        DifferenceOperation::Since => time.negated(),
    }
}

/// The difference that an exact length `delta` is reported as under the
/// settings: the length is rounded to the increment in the smallest unit,
/// balanced up to the largest unit, and negated for `Since`. The sign of the
/// operation plays no part before that last step.
///
/// The smallest unit defaults to the nanosecond and the largest to the
/// coarser of `fallback_largest` and the smallest unit. `None` where the
/// settings cannot be resolved, where the largest unit is a day or coarser,
/// or where the rounded length leaves the range of a time duration.
pub open spec fn difference_of(
    delta: int,
    operation: DifferenceOperation,
    settings: DifferenceSettingsView,
    fallback_largest: TemporalUnit,
) -> Option<TimeDurationView> {
    let resolved = settings.resolved(fallback_largest, TemporalUnit::Nanosecond);
    if !settings.resolvable(fallback_largest, TemporalUnit::Nanosecond) {
        None
    } else if !resolved.largest_unit.spec_is_time_unit() {
        None
    } else {
        match rounded_duration(delta, resolved) {
            Some(rounded) => Some(directed(balanced_time(rounded, resolved.largest_unit), operation)),
            None => None,
        }
    }
}

/// The direction of a difference only flips its sign: what `Since` reports is
/// the negation of what `Until` reports, and one fails where the other does.
pub proof fn lemma_since_negates_until(
    delta: int,
    settings: DifferenceSettingsView,
    fallback_largest: TemporalUnit,
)
    ensures
        difference_of(delta, DifferenceOperation::Since, settings, fallback_largest) is Some
            <==> difference_of(delta, DifferenceOperation::Until, settings, fallback_largest)
            is Some,
        difference_of(delta, DifferenceOperation::Until, settings, fallback_largest)
            matches Some(until) ==> difference_of(
            delta,
            DifferenceOperation::Since,
            settings,
            fallback_largest,
        ) == Some(until.negated()),
{
}

/// A time duration: six integer components that share one sign, of a length
/// less than 2^53 seconds.
#[derive(Debug, Clone, Copy, PartialEq, Eq)]
pub struct TimeDuration {
    hours: i128,
    minutes: i128,
    seconds: i128,
    milliseconds: i128,
    microseconds: i128,
    nanoseconds: i128,
}

impl View for TimeDuration {
    type V = TimeDurationView;

    closed spec fn view(&self) -> TimeDurationView {
        TimeDurationView {
            hours: self.hours as int,
            minutes: self.minutes as int,
            seconds: self.seconds as int,
            milliseconds: self.milliseconds as int,
            microseconds: self.microseconds as int,
            nanoseconds: self.nanoseconds as int,
        }
    }
}

impl TimeDuration {
    /// Every time duration is valid.
    #[verifier::type_invariant]
    pub open spec fn is_valid(self) -> bool {
        self@.is_valid()
    }

    /// The duration of no length.
    pub fn zero() -> (duration: TimeDuration)
        ensures
            duration@ == (TimeDurationView {
                hours: 0,
                minutes: 0,
                seconds: 0,
                milliseconds: 0,
                microseconds: 0,
                nanoseconds: 0,
            }),
    {
        TimeDuration {
            hours: 0,
            minutes: 0,
            seconds: 0,
            milliseconds: 0,
            microseconds: 0,
            nanoseconds: 0,
        }
    }

    /// Makes a duration of components that are known to be valid.
    pub fn new_unchecked(
        hours: i128,
        minutes: i128,
        seconds: i128,
        milliseconds: i128,
        microseconds: i128,
        nanoseconds: i128,
    ) -> (duration: TimeDuration)
        requires
            (TimeDurationView {
                hours: hours as int,
                minutes: minutes as int,
                seconds: seconds as int,
                milliseconds: milliseconds as int,
                microseconds: microseconds as int,
                nanoseconds: nanoseconds as int,
            }).is_valid(),
        ensures
            duration@ == (TimeDurationView {
                hours: hours as int,
                minutes: minutes as int,
                seconds: seconds as int,
                milliseconds: milliseconds as int,
                microseconds: microseconds as int,
                nanoseconds: nanoseconds as int,
            }),
    {
        TimeDuration { hours, minutes, seconds, milliseconds, microseconds, nanoseconds }
    }

    /// Makes a duration of six components. Fails with a range error exactly
    /// when they are not valid: when two of them differ in sign, or the
    /// length reaches 2^53 seconds.
    pub fn new(
        hours: i128,
        minutes: i128,
        seconds: i128,
        milliseconds: i128,
        microseconds: i128,
        nanoseconds: i128,
    ) -> (result: Result<TimeDuration, TemporalError>)
        ensures
            result is Ok <==> (TimeDurationView {
                hours: hours as int,
                minutes: minutes as int,
                seconds: seconds as int,
                milliseconds: milliseconds as int,
                microseconds: microseconds as int,
                nanoseconds: nanoseconds as int,
            }).is_valid(),
            result matches Ok(duration) ==> duration@ == (TimeDurationView {
                hours: hours as int,
                minutes: minutes as int,
                seconds: seconds as int,
                milliseconds: milliseconds as int,
                microseconds: microseconds as int,
                nanoseconds: nanoseconds as int,
            }),
            result matches Err(error) ==> error == range_error(),
    {
        let none_negative: bool = hours >= 0 && minutes >= 0 && seconds >= 0 && milliseconds >= 0
            && microseconds >= 0 && nanoseconds >= 0;
        let none_positive: bool = hours <= 0 && minutes <= 0 && seconds <= 0 && milliseconds <= 0
            && microseconds <= 0 && nanoseconds <= 0;
        if !none_negative && !none_positive {
            return Err(TemporalError::range());
        }
        if !component_in_range(hours) || !component_in_range(minutes) || !component_in_range(
            seconds,
        ) || !component_in_range(milliseconds) || !component_in_range(microseconds)
            || !component_in_range(nanoseconds) {
            return Err(TemporalError::range());
        }
        let total: i128 = hours * NS_PER_HOUR + minutes * NS_PER_MINUTE + seconds * NS_PER_SECOND
            + milliseconds * NS_PER_MILLISECOND + microseconds * NS_PER_MICROSECOND + nanoseconds;
        if total > MAX_TIME_DURATION || total < -MAX_TIME_DURATION {
            return Err(TemporalError::range());
        }
        Ok(TimeDuration { hours, minutes, seconds, milliseconds, microseconds, nanoseconds })
    }

    /// Returns the hours.
    pub fn hours(&self) -> (hours: i128)
        ensures
            hours == self@.hours,
    {
        self.hours
    }

    /// Returns the minutes.
    pub fn minutes(&self) -> (minutes: i128)
        ensures
            minutes == self@.minutes,
    {
        self.minutes
    }

    /// Returns the seconds.
    pub fn seconds(&self) -> (seconds: i128)
        ensures
            seconds == self@.seconds,
    {
        self.seconds
    }

    /// Returns the milliseconds.
    pub fn milliseconds(&self) -> (milliseconds: i128)
        ensures
            milliseconds == self@.milliseconds,
    {
        self.milliseconds
    }

    /// Returns the microseconds.
    pub fn microseconds(&self) -> (microseconds: i128)
        ensures
            microseconds == self@.microseconds,
    {
        self.microseconds
    }

    /// Returns the nanoseconds.
    pub fn nanoseconds(&self) -> (nanoseconds: i128)
        ensures
            nanoseconds == self@.nanoseconds,
    {
        self.nanoseconds
    }

    /// Returns the exact length in nanoseconds.
    pub fn total_nanoseconds(&self) -> (total: i128)
        ensures
            total == self@.total_nanoseconds(),
            in_duration_range(total as int),
            self@.is_valid(),
    {
        proof {
            use_type_invariant(self);
        }
        self.hours * NS_PER_HOUR + self.minutes * NS_PER_MINUTE + self.seconds * NS_PER_SECOND
            + self.milliseconds * NS_PER_MILLISECOND + self.microseconds * NS_PER_MICROSECOND
            + self.nanoseconds
    }

    /// Returns the sign that the components share; zero where all are zero.
    pub fn sign(&self) -> (sign: Sign)
        ensures
            sign == Sign::of(self@.total_nanoseconds()),
    {
        Sign::from_i128(self.total_nanoseconds())
    }

    /// Whether every component is zero.
    pub fn is_zero(&self) -> (yes: bool)
        ensures
            yes == (self@.total_nanoseconds() == 0),
    {
        self.total_nanoseconds() == 0
    }

    /// Returns the duration with every component negated.
    pub fn negated(&self) -> (duration: TimeDuration)
        ensures
            duration@ == self@.negated(),
    {
        proof {
            use_type_invariant(self);
        }
        TimeDuration {
            hours: -self.hours,
            minutes: -self.minutes,
            seconds: -self.seconds,
            milliseconds: -self.milliseconds,
            microseconds: -self.microseconds,
            nanoseconds: -self.nanoseconds,
        }
    }

    /// Returns the duration with every component replaced by its magnitude.
    pub fn abs(&self) -> (duration: TimeDuration)
        ensures
            duration@ == self@.magnitude(),
    {
        proof {
            use_type_invariant(self);
        }
        if self.hours >= 0 && self.minutes >= 0 && self.seconds >= 0 && self.milliseconds >= 0
            && self.microseconds >= 0 && self.nanoseconds >= 0 {
            *self
        } else {
            self.negated()
        }
    }

    /// Returns the exact length of the duration.
    pub fn to_normalized(&self) -> (normalized: NormalizedTimeDuration)
        ensures
            normalized@ == self@.total_nanoseconds(),
    {
        NormalizedTimeDuration::from_time_duration(self)
    }

    /// Balances an exact length up to `largest_unit`: each component from the
    /// nanoseconds upward hands every whole multiple to the next coarser one,
    /// until the largest unit, which keeps what it gets. Where the largest
    /// unit is a day or coarser, the whole days are returned beside the
    /// duration.
    ///
    /// Fails with a range error exactly when the largest unit is `Auto`.
    pub fn from_normalized(norm: NormalizedTimeDuration, largest_unit: TemporalUnit) -> (result:
        Result<(i128, TimeDuration), TemporalError>)
        ensures
            result is Ok <==> largest_unit != TemporalUnit::Auto,
            result matches Ok((days, duration)) ==> {
                &&& days == balanced_days(norm@, largest_unit)
                &&& duration@ == balanced_time(norm@, largest_unit)
            },
            result matches Err(error) ==> error == range_error(),
    {
        let top: u8 = largest_unit.ordinal();
        if top == 0 {
            return Err(TemporalError::range());
        }
        let total: i128 = norm.total_nanoseconds();
        let negative: bool = total < 0;
        let magnitude: i128 = if negative {
            -total
        } else {
            total
        };
        proof {
            lemma_balanced_counts(magnitude as int, top as int);
        }
        let whole_days: i128 = if top >= 7 {
            magnitude / 86_400_000_000_000
        } else {
            0
        };
        let hours: i128 = count_of(magnitude, NS_PER_HOUR, 24, 6, top);
        let minutes: i128 = count_of(magnitude, NS_PER_MINUTE, 60, 5, top);
        let seconds: i128 = count_of(magnitude, NS_PER_SECOND, 60, 4, top);
        let milliseconds: i128 = count_of(magnitude, NS_PER_MILLISECOND, 1000, 3, top);
        let microseconds: i128 = count_of(magnitude, NS_PER_MICROSECOND, 1000, 2, top);
        let nanoseconds: i128 = count_of(magnitude, 1, 1000, 1, top);
        if negative {
            Ok(
                (
                    -whole_days,
                    TimeDuration {
                        hours: -hours,
                        minutes: -minutes,
                        seconds: -seconds,
                        milliseconds: -milliseconds,
                        microseconds: -microseconds,
                        nanoseconds: -nanoseconds,
                    },
                ),
            )
        } else {
            Ok(
                (
                    whole_days,
                    TimeDuration {
                        hours,
                        minutes,
                        seconds,
                        milliseconds,
                        microseconds,
                        nanoseconds,
                    },
                ),
            )
        }
    }

    /// Reports the exact length `delta` as a difference under the settings:
    /// resolves the settings, rounds the length unless it is asked for to the
    /// nanosecond, balances it up to the largest unit, and negates the result
    /// for `Since`.
    ///
    /// Fails with a range error exactly when the settings cannot be resolved,
    /// the largest unit is a day or coarser, or the rounded length leaves the
    /// range of a time duration.
    pub fn difference(
        delta: NormalizedTimeDuration,
        operation: DifferenceOperation,
        settings: DifferenceSettings,
        fallback_largest: TemporalUnit,
    ) -> (result: Result<TimeDuration, TemporalError>)
        ensures
            result is Ok <==> difference_of(delta@, operation, settings@, fallback_largest)
                is Some,
            result matches Ok(duration) ==> Some(duration@) == difference_of(
                delta@,
                operation,
                settings@,
                fallback_largest,
            ),
            result matches Err(error) ==> error == range_error(),
    {
        let resolved: ResolvedRoundingOptions = match ResolvedRoundingOptions::from_diff_settings(
            settings,
            operation,
            fallback_largest,
            TemporalUnit::Nanosecond,
        ) {
            Ok((_, resolved)) => resolved,
            Err(error) => {
                return Err(error);
            },
        };
        if !resolved.largest_unit.is_time_unit() {
            return Err(TemporalError::range());
        }
        let exact: bool = resolved.smallest_unit.ordinal() == 1 && resolved.increment.get() == 1;
        let rounded: NormalizedTimeDuration = if exact {
            proof {
                use_type_invariant(&delta);
                assert(1 * resolved@.increment == 1);
            }
            delta
        } else {
            match delta.round(resolved) {
                Ok(rounded) => rounded,
                Err(error) => {
                    return Err(error);
                },
            }
        };
        let balanced: TimeDuration = match TimeDuration::from_normalized(
            rounded,
            resolved.largest_unit,
        ) {
            Ok((_, balanced)) => balanced,
            Err(error) => {
                return Err(error);
            },
        };
        match operation {
            DifferenceOperation::Until => Ok(balanced),
            DifferenceOperation::Since => Ok(balanced.negated()),
        }
    }
}

/// Returns the count of a unit in a magnitude that is balanced up to the unit
/// of ordinal `top`.
fn count_of(magnitude: i128, length: i128, per_next: i128, ordinal: u8, top: u8) -> (count: i128)
    requires
        magnitude >= 0,
        length > 0,
        per_next > 0,
    ensures
        count == balanced_count(
            magnitude as int,
            length as int,
            per_next as int,
            ordinal as int,
            top as int,
        ),
{
    if top < ordinal {
        0
    } else if top == ordinal {
        magnitude / length
    } else {
        (magnitude / length) % per_next
    }
}

/// Whether a component is small enough to be part of a valid duration.
fn component_in_range(component: i128) -> (yes: bool)
    ensures
        yes == in_duration_range(component as int),
{
    -MAX_TIME_DURATION <= component && component <= MAX_TIME_DURATION
}

/// Dividing by a thousand, a thousand, a thousand, sixty, sixty and
/// twenty-four in turn gives the quotients by the lengths of the units.
pub proof fn lemma_division_chain(magnitude: int)
    requires
        magnitude >= 0,
    ensures
        magnitude / 1_000 / 1_000 == magnitude / 1_000_000,
        magnitude / 1_000_000 / 1_000 == magnitude / 1_000_000_000,
        magnitude / 1_000_000_000 / 60 == magnitude / 60_000_000_000,
        magnitude / 60_000_000_000 / 60 == magnitude / 3_600_000_000_000,
        magnitude / 3_600_000_000_000 / 24 == magnitude / 86_400_000_000_000,
{
    let us = magnitude / 1_000;
    let ms = us / 1_000;
    let s = ms / 1_000;
    let min = s / 60;
    let h = min / 60;
    let d = h / 24;
    lemma_div_mod_split(magnitude, 1_000);
    lemma_div_mod_split(us, 1_000);
    lemma_div_mod_split(ms, 1_000);
    lemma_div_mod_split(s, 60);
    lemma_div_mod_split(min, 60);
    lemma_div_mod_split(h, 24);
    let r1 = magnitude % 1_000;
    let r2 = (us % 1_000) * 1_000 + r1;
    let r3 = (ms % 1_000) * 1_000_000 + r2;
    let r4 = (s % 60) * 1_000_000_000 + r3;
    let r5 = (min % 60) * 60_000_000_000 + r4;
    let r6 = (h % 24) * 3_600_000_000_000 + r5;
    lemma_div_mod_unique(magnitude, 1_000_000, ms, r2);
    lemma_div_mod_unique(magnitude, 1_000_000_000, s, r3);
    lemma_div_mod_unique(magnitude, 60_000_000_000, min, r4);
    lemma_div_mod_unique(magnitude, 3_600_000_000_000, h, r5);
    lemma_div_mod_unique(magnitude, 86_400_000_000_000, d, r6);
}

/// The balanced counts of a magnitude are not negative, and with the days set
/// apart they add up to the magnitude they were taken from.
pub proof fn lemma_balanced_counts(magnitude: int, top: int)
    requires
        magnitude >= 0,
        1 <= top <= 10,
    ensures
        (if top >= 7 {
            magnitude / 86_400_000_000_000 * 86_400_000_000_000
        } else {
            0
        }) + balanced_count(magnitude, 3_600_000_000_000, 24, 6, top) * 3_600_000_000_000
            + balanced_count(magnitude, 60_000_000_000, 60, 5, top) * 60_000_000_000
            + balanced_count(magnitude, 1_000_000_000, 60, 4, top) * 1_000_000_000
            + balanced_count(magnitude, 1_000_000, 1000, 3, top) * 1_000_000 + balanced_count(
            magnitude,
            1_000,
            1000,
            2,
            top,
        ) * 1_000 + balanced_count(magnitude, 1, 1000, 1, top) == magnitude,
        balanced_count(magnitude, 3_600_000_000_000, 24, 6, top) >= 0,
        balanced_count(magnitude, 60_000_000_000, 60, 5, top) >= 0,
        balanced_count(magnitude, 1_000_000_000, 60, 4, top) >= 0,
        balanced_count(magnitude, 1_000_000, 1000, 3, top) >= 0,
        balanced_count(magnitude, 1_000, 1000, 2, top) >= 0,
        balanced_count(magnitude, 1, 1000, 1, top) >= 0,
{
    lemma_division_chain(magnitude);
    let us = magnitude / 1_000;
    let ms = magnitude / 1_000_000;
    let s = magnitude / 1_000_000_000;
    let min = magnitude / 60_000_000_000;
    let h = magnitude / 3_600_000_000_000;
    lemma_div_mod_split(magnitude, 1_000);
    lemma_div_mod_split(us, 1_000);
    lemma_div_mod_split(ms, 1_000);
    lemma_div_mod_split(s, 60);
    lemma_div_mod_split(min, 60);
    lemma_div_mod_split(h, 24);
}

/// Balancing loses nothing: the balanced components and the days set apart
/// come to the length that was balanced, they share its sign, and they stand
/// in balance below the largest unit.
pub proof fn lemma_balancing_is_lossless(nanoseconds: int, largest_unit: TemporalUnit)
    requires
        largest_unit != TemporalUnit::Auto,
    ensures
        balanced_time(nanoseconds, largest_unit).total_nanoseconds() + balanced_days(
            nanoseconds,
            largest_unit,
        ) * 86_400_000_000_000 == nanoseconds,
        nanoseconds >= 0 ==> balanced_time(nanoseconds, largest_unit).none_negative(),
        nanoseconds <= 0 ==> balanced_time(nanoseconds, largest_unit).none_positive(),
        balanced_time(nanoseconds, largest_unit).is_balanced(largest_unit),
        largest_unit.spec_is_time_unit() && in_duration_range(nanoseconds) ==> balanced_time(
            nanoseconds,
            largest_unit,
        ).is_valid(),
{
    let magnitude = abs(nanoseconds);
    let top = largest_unit.spec_ordinal();
    lemma_balanced_counts(magnitude, top);
    lemma_div_mod_split(magnitude / 3_600_000_000_000, 24);
    lemma_div_mod_split(magnitude / 60_000_000_000, 60);
    lemma_div_mod_split(magnitude / 1_000_000_000, 60);
    lemma_div_mod_split(magnitude / 1_000_000, 1000);
    lemma_div_mod_split(magnitude / 1_000, 1000);
    lemma_div_mod_split(magnitude / 1, 1000);
}

/// A time duration that is normalized and then balanced up to a unit of time
/// is the duration it was, wherever it stood in balance below that unit: the
/// round trip through the exact length loses nothing.
pub proof fn lemma_normalize_then_balance(duration: TimeDurationView, largest_unit: TemporalUnit)
    requires
        duration.is_valid(),
        largest_unit.spec_is_time_unit(),
        duration.is_balanced(largest_unit),
    ensures
        balanced_time(duration.total_nanoseconds(), largest_unit) == duration,
        balanced_days(duration.total_nanoseconds(), largest_unit) == 0,
{
    let positive = duration.magnitude();
    let magnitude = positive.total_nanoseconds();
    let h = positive.hours;
    let m = positive.minutes;
    let s = positive.seconds;
    let ms = positive.milliseconds;
    let us = positive.microseconds;
    let ns = positive.nanoseconds;
    let below_us = ns;
    let below_ms = us * 1_000 + below_us;
    let below_s = ms * 1_000_000 + below_ms;
    let below_min = s * 1_000_000_000 + below_s;
    let below_h = m * 60_000_000_000 + below_min;
    let top = largest_unit.spec_ordinal();
    let minutes = h * 60 + m;
    let seconds = minutes * 60 + s;
    let milliseconds = seconds * 1000 + ms;
    let microseconds = milliseconds * 1000 + us;
    if top >= 6 {
        lemma_div_mod_unique(magnitude, 3_600_000_000_000, h, below_h);
    }
    if top >= 5 {
        lemma_div_mod_unique(magnitude, 60_000_000_000, minutes, below_min);
        if top > 5 {
            lemma_div_mod_unique(minutes, 60, h, m);
        }
    }
    if top >= 4 {
        lemma_div_mod_unique(magnitude, 1_000_000_000, seconds, below_s);
        if top > 4 {
            lemma_div_mod_unique(seconds, 60, minutes, s);
        }
    }
    if top >= 3 {
        lemma_div_mod_unique(magnitude, 1_000_000, milliseconds, below_ms);
        if top > 3 {
            lemma_div_mod_unique(milliseconds, 1000, seconds, ms);
        }
    }
    if top >= 2 {
        lemma_div_mod_unique(magnitude, 1_000, microseconds, below_us);
        if top > 2 {
            lemma_div_mod_unique(microseconds, 1000, milliseconds, us);
        }
    }
    if top > 1 {
        lemma_div_mod_unique(magnitude, 1000, microseconds, ns);
    }
}

/// The four components of a date duration.
pub struct DateDurationView {
    pub years: int,
    pub months: int,
    pub weeks: int,
    pub days: int,
}

impl DateDurationView {
    /// Every component is zero.
    pub open spec fn is_zero(self) -> bool {
        self.years == 0 && self.months == 0 && self.weeks == 0 && self.days == 0
    }

    /// No component is negative.
    pub open spec fn none_negative(self) -> bool {
        self.years >= 0 && self.months >= 0 && self.weeks >= 0 && self.days >= 0
    }

    /// No component is positive.
    pub open spec fn none_positive(self) -> bool {
        self.years <= 0 && self.months <= 0 && self.weeks <= 0 && self.days <= 0
    }

    /// The components share one sign; years, months and weeks are less than
    /// 2^32 in magnitude, and the days are less than 2^53 seconds long.
    pub open spec fn is_valid(self) -> bool {
        &&& self.none_negative() || self.none_positive()
        &&& abs(self.years) < 0x1_0000_0000
        &&& abs(self.months) < 0x1_0000_0000
        &&& abs(self.weeks) < 0x1_0000_0000
        &&& in_duration_range(self.days * 86_400_000_000_000)
    }

    /// Every component negated.
    pub open spec fn negated(self) -> DateDurationView {
        DateDurationView {
            years: -self.years,
            months: -self.months,
            weeks: -self.weeks,
            days: -self.days,
        }
    }
}

/// The date part of a duration: years, months, weeks and days that share one
/// sign. This crate carries it along and does no arithmetic on it.
#[derive(Debug, Clone, Copy, PartialEq, Eq)]
pub struct DateDuration {
    years: i64,
    months: i64,
    weeks: i64,
    days: i64,
}

impl View for DateDuration {
    type V = DateDurationView;

    closed spec fn view(&self) -> DateDurationView {
        DateDurationView {
            years: self.years as int,
            months: self.months as int,
            weeks: self.weeks as int,
            days: self.days as int,
        }
    }
}

/// The largest magnitude of the years, months or weeks of a duration.
pub const MAX_DATE_COMPONENT: i64 = 0xFFFF_FFFF;

/// The largest magnitude of the days of a duration.
pub const MAX_DAYS: i64 = 104_249_991_374;

impl DateDuration {
    /// Every date duration is valid.
    #[verifier::type_invariant]
    pub open spec fn is_valid(self) -> bool {
        self@.is_valid()
    }

    /// The date duration of no length.
    pub fn zero() -> (duration: DateDuration)
        ensures
            duration@ == (DateDurationView { years: 0, months: 0, weeks: 0, days: 0 }),
    {
        DateDuration { years: 0, months: 0, weeks: 0, days: 0 }
    }

    /// Makes a date duration of four components. Fails with a range error
    /// exactly when they are not valid.
    pub fn new(years: i64, months: i64, weeks: i64, days: i64) -> (result: Result<
        DateDuration,
        TemporalError,
    >)
        ensures
            result is Ok <==> (DateDurationView {
                years: years as int,
                months: months as int,
                weeks: weeks as int,
                days: days as int,
            }).is_valid(),
            result matches Ok(duration) ==> duration@ == (DateDurationView {
                years: years as int,
                months: months as int,
                weeks: weeks as int,
                days: days as int,
            }),
            result matches Err(error) ==> error == range_error(),
    {
        let none_negative: bool = years >= 0 && months >= 0 && weeks >= 0 && days >= 0;
        let none_positive: bool = years <= 0 && months <= 0 && weeks <= 0 && days <= 0;
        if !none_negative && !none_positive {
            return Err(TemporalError::range());
        }
        if years > MAX_DATE_COMPONENT || years < -MAX_DATE_COMPONENT || months
            > MAX_DATE_COMPONENT || months < -MAX_DATE_COMPONENT || weeks > MAX_DATE_COMPONENT
            || weeks < -MAX_DATE_COMPONENT {
            return Err(TemporalError::range());
        }
        if days > MAX_DAYS || days < -MAX_DAYS {
            return Err(TemporalError::range());
        }
        Ok(DateDuration { years, months, weeks, days })
    }

    /// Returns the years.
    pub fn years(&self) -> (years: i64)
        ensures
            years == self@.years,
    {
        self.years
    }

    /// Returns the months.
    pub fn months(&self) -> (months: i64)
        ensures
            months == self@.months,
    {
        self.months
    }

    /// Returns the weeks.
    pub fn weeks(&self) -> (weeks: i64)
        ensures
            weeks == self@.weeks,
    {
        self.weeks
    }

    /// Returns the days.
    pub fn days(&self) -> (days: i64)
        ensures
            days == self@.days,
    {
        self.days
    }

    /// Whether every component is zero.
    pub fn is_zero(&self) -> (yes: bool)
        ensures
            yes == self@.is_zero(),
    {
        self.years == 0 && self.months == 0 && self.weeks == 0 && self.days == 0
    }

    /// Returns the date duration with every component negated.
    pub fn negated(&self) -> (duration: DateDuration)
        ensures
            duration@ == self@.negated(),
    {
        proof {
            use_type_invariant(self);
        }
        DateDuration {
            years: -self.years,
            months: -self.months,
            weeks: -self.weeks,
            days: -self.days,
        }
    }
}

/// The ten components of a duration.
pub struct DurationView {
    pub date: DateDurationView,
    pub time: TimeDurationView,
}

impl DurationView {
    /// The length of the days and of the time part together, in nanoseconds.
    pub open spec fn day_time_nanoseconds(self) -> int {
        self.date.days * 86_400_000_000_000 + self.time.total_nanoseconds()
    }

    /// Both parts are valid, all ten components share one sign, and the days
    /// and the time part together are less than 2^53 seconds long.
    pub open spec fn is_valid(self) -> bool {
        &&& self.date.is_valid()
        &&& self.time.is_valid()
        &&& (self.date.none_negative() && self.time.none_negative()) || (
        self.date.none_positive() && self.time.none_positive())
        &&& in_duration_range(self.day_time_nanoseconds())
    }

    /// Whether the date part is zero.
    pub open spec fn is_time_duration(self) -> bool {
        self.date.is_zero()
    }

    /// Every component negated.
    pub open spec fn negated(self) -> DurationView {
        DurationView { date: self.date.negated(), time: self.time.negated() }
    }

    /// The duration of a time part alone.
    pub open spec fn of_time(time: TimeDurationView) -> DurationView {
        DurationView {
            date: DateDurationView { years: 0, months: 0, weeks: 0, days: 0 },
            time,
        }
    }
}

/// A duration: a date part and a time part whose components all share one
/// sign.
#[derive(Debug, Clone, Copy, PartialEq, Eq)]
pub struct Duration {
    date: DateDuration,
    time: TimeDuration,
}

impl View for Duration {
    type V = DurationView;

    closed spec fn view(&self) -> DurationView {
        DurationView { date: self.date@, time: self.time@ }
    }
}

impl Duration {
    /// Every duration is valid.
    #[verifier::type_invariant]
    pub open spec fn is_valid(self) -> bool {
        self@.is_valid()
    }

    /// Makes a duration of ten components. Fails with a range error exactly
    /// when they are not valid.
    pub fn new(
        years: i64,
        months: i64,
        weeks: i64,
        days: i64,
        hours: i128,
        minutes: i128,
        seconds: i128,
        milliseconds: i128,
        microseconds: i128,
        nanoseconds: i128,
    ) -> (result: Result<Duration, TemporalError>)
        ensures
            result is Ok <==> (DurationView {
                date: DateDurationView {
                    years: years as int,
                    months: months as int,
                    weeks: weeks as int,
                    days: days as int,
                },
                time: TimeDurationView {
                    hours: hours as int,
                    minutes: minutes as int,
                    seconds: seconds as int,
                    milliseconds: milliseconds as int,
                    microseconds: microseconds as int,
                    nanoseconds: nanoseconds as int,
                },
            }).is_valid(),
            result matches Ok(duration) ==> duration@ == (DurationView {
                date: DateDurationView {
                    years: years as int,
                    months: months as int,
                    weeks: weeks as int,
                    days: days as int,
                },
                time: TimeDurationView {
                    hours: hours as int,
                    minutes: minutes as int,
                    seconds: seconds as int,
                    milliseconds: milliseconds as int,
                    microseconds: microseconds as int,
                    nanoseconds: nanoseconds as int,
                },
            }),
            result matches Err(error) ==> error == range_error(),
    {
        let date: DateDuration = match DateDuration::new(years, months, weeks, days) {
            Ok(date) => date,
            Err(error) => {
                return Err(error);
            },
        };
        let time: TimeDuration = match TimeDuration::new(
            hours,
            minutes,
            seconds,
            milliseconds,
            microseconds,
            nanoseconds,
        ) {
            Ok(time) => time,
            Err(error) => {
                return Err(error);
            },
        };
        Duration::from_parts(date, time)
    }

    /// Joins a date part and a time part. Fails with a range error exactly
    /// when the two differ in sign, or the days and the time together reach
    /// 2^53 seconds.
    pub fn from_parts(date: DateDuration, time: TimeDuration) -> (result: Result<
        Duration,
        TemporalError,
    >)
        ensures
            result is Ok <==> (DurationView { date: date@, time: time@ }).is_valid(),
            result matches Ok(duration) ==> duration@ == (DurationView {
                date: date@,
                time: time@,
            }),
            result matches Err(error) ==> error == range_error(),
    {
        proof {
            use_type_invariant(&date);
            use_type_invariant(&time);
        }
        let date_none_negative: bool = date.years() >= 0 && date.months() >= 0 && date.weeks()
            >= 0 && date.days() >= 0;
        let date_none_positive: bool = date.years() <= 0 && date.months() <= 0 && date.weeks()
            <= 0 && date.days() <= 0;
        let time_total: i128 = time.total_nanoseconds();
        if !((date_none_negative && time_total >= 0) || (date_none_positive && time_total <= 0)) {
            return Err(TemporalError::range());
        }
        let total: i128 = (date.days() as i128) * 86_400_000_000_000 + time_total;
        if total > MAX_TIME_DURATION || total < -MAX_TIME_DURATION {
            return Err(TemporalError::range());
        }
        Ok(Duration { date, time })
    }

    /// The duration of a time part alone.
    pub fn from_time_duration(time: TimeDuration) -> (duration: Duration)
        ensures
            duration@ == DurationView::of_time(time@),
    {
        proof {
            use_type_invariant(&time);
        }
        Duration { date: DateDuration::zero(), time }
    }

    /// Returns the date part.
    pub fn date(&self) -> (date: &DateDuration)
        ensures
            date@ == self@.date,
    {
        &self.date
    }

    /// Returns the time part.
    pub fn time(&self) -> (time: &TimeDuration)
        ensures
            time@ == self@.time,
    {
        &self.time
    }

    /// Whether the duration has no date part.
    pub fn is_time_duration(&self) -> (yes: bool)
        ensures
            yes == self@.is_time_duration(),
    {
        self.date.is_zero()
    }

    /// Returns the years.
    pub fn years(&self) -> (years: i64)
        ensures
            years == self@.date.years,
    {
        self.date.years()
    }

    /// Returns the months.
    pub fn months(&self) -> (months: i64)
        ensures
            months == self@.date.months,
    {
        self.date.months()
    }

    /// Returns the weeks.
    pub fn weeks(&self) -> (weeks: i64)
        ensures
            weeks == self@.date.weeks,
    {
        self.date.weeks()
    }

    /// Returns the days.
    pub fn days(&self) -> (days: i64)
        ensures
            days == self@.date.days,
    {
        self.date.days()
    }

    /// Returns the hours.
    pub fn hours(&self) -> (hours: i128)
        ensures
            hours == self@.time.hours,
    {
        self.time.hours()
    }

    /// Returns the minutes.
    pub fn minutes(&self) -> (minutes: i128)
        ensures
            minutes == self@.time.minutes,
    {
        self.time.minutes()
    }

    /// Returns the seconds.
    pub fn seconds(&self) -> (seconds: i128)
        ensures
            seconds == self@.time.seconds,
    {
        self.time.seconds()
    }

    /// Returns the milliseconds.
    pub fn milliseconds(&self) -> (milliseconds: i128)
        ensures
            milliseconds == self@.time.milliseconds,
    {
        self.time.milliseconds()
    }

    /// Returns the microseconds.
    pub fn microseconds(&self) -> (microseconds: i128)
        ensures
            microseconds == self@.time.microseconds,
    {
        self.time.microseconds()
    }

    /// Returns the nanoseconds.
    pub fn nanoseconds(&self) -> (nanoseconds: i128)
        ensures
            nanoseconds == self@.time.nanoseconds,
    {
        self.time.nanoseconds()
    }

    /// Returns the duration with every component negated.
    pub fn negated(&self) -> (duration: Duration)
        ensures
            duration@ == self@.negated(),
    {
        proof {
            use_type_invariant(self);
        }
        Duration { date: self.date.negated(), time: self.time.negated() }
    }
}

/// The time part that a parsed time part stands for, before the sign: the
/// whole numbers as they are, and the fraction of the finest unit balanced
/// into the finer ones.
pub open spec fn time_of_record(record: Option<TimeDurationRecord>) -> TimeDurationView {
    match record {
        Some(TimeDurationRecord::Hours { hours, fraction }) => {
            let rest = balanced_time(fraction as int, TemporalUnit::Minute);
            TimeDurationView { hours: hours as int, ..rest }
        },
        Some(TimeDurationRecord::Minutes { hours, minutes, fraction }) => {
            let rest = balanced_time(fraction as int, TemporalUnit::Second);
            TimeDurationView { hours: hours as int, minutes: minutes as int, ..rest }
        },
        Some(TimeDurationRecord::Seconds { hours, minutes, seconds, fraction }) => {
            let rest = balanced_time(fraction as int, TemporalUnit::Millisecond);
            TimeDurationView {
                hours: hours as int,
                minutes: minutes as int,
                seconds: seconds as int,
                ..rest
            }
        },
        None => TimeDurationView {
            hours: 0,
            minutes: 0,
            seconds: 0,
            milliseconds: 0,
            microseconds: 0,
            nanoseconds: 0,
        },
    }
}

/// The components that a parsed duration stands for: those of its date and
/// time parts, all negated where the sign of the record is negative.
pub open spec fn duration_of_record(record: DurationRecord) -> DurationView {
    let date = match record.date {
        Some(date) => DateDurationView {
            years: date.years as int,
            months: date.months as int,
            weeks: date.weeks as int,
            days: date.days as int,
        },
        None => DateDurationView { years: 0, months: 0, weeks: 0, days: 0 },
    };
    let duration = DurationView { date, time: time_of_record(record.time) };
    if record.sign < 0 {
        duration.negated()
    } else {
        duration
    }
}

impl Duration {
    /// Makes the duration that a parsed duration stands for. Fails with a
    /// range error exactly when its components are not valid.
    pub fn from_record(record: DurationRecord) -> (result: Result<Duration, TemporalError>)
        ensures
            result is Ok <==> duration_of_record(record).is_valid(),
            result matches Ok(duration) ==> duration@ == duration_of_record(record),
            result matches Err(error) ==> error == range_error(),
    {
        let (whole_hours, whole_minutes, whole_seconds, fraction, unit): (
            u32,
            u32,
            u32,
            u64,
            TemporalUnit,
        ) = match record.time {
            Some(TimeDurationRecord::Hours { hours, fraction }) => (
                hours,
                0,
                0,
                fraction,
                TemporalUnit::Minute,
            ),
            Some(TimeDurationRecord::Minutes { hours, minutes, fraction }) => (
                hours,
                minutes,
                0,
                fraction,
                TemporalUnit::Second,
            ),
            Some(TimeDurationRecord::Seconds { hours, minutes, seconds, fraction }) => (
                hours,
                minutes,
                seconds,
                fraction as u64,
                TemporalUnit::Millisecond,
            ),
            None => (0, 0, 0, 0, TemporalUnit::Millisecond),
        };
        let exact: NormalizedTimeDuration = match NormalizedTimeDuration::try_new(
            fraction as i128,
        ) {
            Ok(exact) => exact,
            Err(error) => {
                return Err(error);
            },
        };
        let rest: TimeDuration = match TimeDuration::from_normalized(exact, unit) {
            Ok((_, rest)) => rest,
            Err(error) => {
                return Err(error);
            },
        };
        proof {
            lemma_balanced_counts(fraction as int, unit.spec_ordinal());
        }
        let (years, months, weeks, days): (i64, i64, i64, i64) = match record.date {
            Some(date) => (date.years as i64, date.months as i64, date.weeks as i64, date.days as i64),
            None => (0, 0, 0, 0),
        };
        let hours: i128 = whole_hours as i128 + rest.hours();
        let minutes: i128 = whole_minutes as i128 + rest.minutes();
        let seconds: i128 = whole_seconds as i128 + rest.seconds();
        if record.sign < 0 {
            Duration::new(
                -years,
                -months,
                -weeks,
                -days,
                -hours,
                -minutes,
                -seconds,
                -rest.milliseconds(),
                -rest.microseconds(),
                -rest.nanoseconds(),
            )
        } else {
            Duration::new(
                years,
                months,
                weeks,
                days,
                hours,
                minutes,
                seconds,
                rest.milliseconds(),
                rest.microseconds(),
                rest.nanoseconds(),
            )
        }
    }

    /// Reads a duration from a text such as `PT16H`. Fails with a range
    /// error exactly when the text gives no duration or the components it
    /// gives are not valid.
    pub fn parse(source: &str) -> (result: Result<Duration, TemporalError>)
        ensures
            result is Ok <==> duration_of_text(source@) is Some && duration_of_record(
                duration_of_text(source@).unwrap(),
            ).is_valid(),
            result matches Ok(duration) ==> duration@ == duration_of_record(
                duration_of_text(source@).unwrap(),
            ),
            result matches Err(error) ==> error == range_error(),
    {
        match parse_duration(source) {
            Some(record) => Duration::from_record(record),
            None => Err(TemporalError::range()),
        }
    }
}

impl core::str::FromStr for Duration {
    type Err = TemporalError;

    fn from_str(source: &str) -> (result: Result<Duration, TemporalError>)
        ensures
            result is Ok <==> duration_of_text(source@) is Some && duration_of_record(
                duration_of_text(source@).unwrap(),
            ).is_valid(),
            result matches Ok(duration) ==> duration@ == duration_of_record(
                duration_of_text(source@).unwrap(),
            ),
            result matches Err(error) ==> error == range_error(),
    {
        Duration::parse(source)
    }
}

} // verus!
