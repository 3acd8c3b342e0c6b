//! Option values of the operations, and the resolution of difference settings
//! into the canonical form that rounding and balancing consume.

use vstd::prelude::*;

use crate::error::{range_error, TemporalError};
use crate::Sign;

verus! {

/// What a constructor does with a field that is out of range.
#[derive(Debug, Clone, Copy, PartialEq, Eq, Structural)]
pub enum ArithmeticOverflow {
    /// Clamp the field into its range.
    Constrain,
    /// Fail with a range error.
    Reject,
}

/// How a wall-clock time that a time zone skips or repeats is resolved.
#[derive(Debug, Clone, Copy, PartialEq, Eq, Structural)]
pub enum Disambiguation {
    Compatible,
    Earlier,
    Later,
    Reject,
}

/// Whether the calendar is shown in text.
#[derive(Debug, Clone, Copy, PartialEq, Eq, Structural)]
pub enum DisplayCalendar {
    Auto,
    Always,
    Never,
    Critical,
}

/// Whether the UTC offset is shown in text.
#[derive(Debug, Clone, Copy, PartialEq, Eq, Structural)]
pub enum DisplayOffset {
    Auto,
    Never,
}

/// Whether the time zone is shown in text.
#[derive(Debug, Clone, Copy, PartialEq, Eq, Structural)]
pub enum DisplayTimeZone {
    Auto,
    Never,
    Critical,
}

/// What a duration constructor does with fields that are out of balance.
#[derive(Debug, Clone, Copy, PartialEq, Eq, Structural)]
pub enum DurationOverflow {
    Constrain,
    Balance,
}

/// How a UTC offset that disagrees with the time zone is treated.
#[derive(Debug, Clone, Copy, PartialEq, Eq, Structural)]
pub enum OffsetDisambiguation {
    Use,
    Prefer,
    Ignore,
    Reject,
}

/// The five rounding rules on a magnitude that the nine signed modes reduce to.
#[derive(Debug, Clone, Copy, PartialEq, Eq, Structural)]
pub enum TemporalUnsignedRoundingMode {
    /// Away from zero.
    Infinity,
    /// Toward zero.
    Zero,
    /// To the nearest, ties away from zero.
    HalfInfinity,
    /// To the nearest, ties toward zero.
    HalfZero,
    /// To the nearest, ties to the even multiple.
    HalfEven,
}

/// The nine rounding modes.
#[derive(Debug, Clone, Copy, PartialEq, Eq, Structural)]
pub enum TemporalRoundingMode {
    Ceil,
    Floor,
    Expand,
    Trunc,
    HalfCeil,
    HalfFloor,
    HalfExpand,
    HalfTrunc,
    HalfEven,
}

impl TemporalRoundingMode {
    /// The rule on magnitudes that this mode follows for a value of the given
    /// sign (`is_positive` is false for a negative value only).
    pub open spec fn unsigned_mode(self, is_positive: bool) -> TemporalUnsignedRoundingMode {
        match self {
            TemporalRoundingMode::Ceil => if is_positive {
                TemporalUnsignedRoundingMode::Infinity
            } else {
                TemporalUnsignedRoundingMode::Zero
            },
            TemporalRoundingMode::Floor => if is_positive {
                TemporalUnsignedRoundingMode::Zero
            } else {
                TemporalUnsignedRoundingMode::Infinity
            },
            TemporalRoundingMode::Expand => TemporalUnsignedRoundingMode::Infinity,
            TemporalRoundingMode::Trunc => TemporalUnsignedRoundingMode::Zero,
            TemporalRoundingMode::HalfCeil => if is_positive {
                TemporalUnsignedRoundingMode::HalfInfinity
            } else {
                TemporalUnsignedRoundingMode::HalfZero
            },
            TemporalRoundingMode::HalfFloor => if is_positive {
                TemporalUnsignedRoundingMode::HalfZero
            } else {
                TemporalUnsignedRoundingMode::HalfInfinity
            },
            TemporalRoundingMode::HalfExpand => TemporalUnsignedRoundingMode::HalfInfinity,
            TemporalRoundingMode::HalfTrunc => TemporalUnsignedRoundingMode::HalfZero,
            TemporalRoundingMode::HalfEven => TemporalUnsignedRoundingMode::HalfEven,
        }
    }

    /// The mode that rounds `-x` to the negation of what this mode rounds `x` to.
    pub open spec fn negated(self) -> TemporalRoundingMode {
        match self {
            TemporalRoundingMode::Ceil => TemporalRoundingMode::Floor,
            TemporalRoundingMode::Floor => TemporalRoundingMode::Ceil,
            TemporalRoundingMode::HalfCeil => TemporalRoundingMode::HalfFloor,
            TemporalRoundingMode::HalfFloor => TemporalRoundingMode::HalfCeil,
            mode => mode,
        }
    }

    /// Returns the rule on magnitudes for a value of the given sign.
    pub fn get_unsigned_round_mode(self, is_positive: bool) -> (mode: TemporalUnsignedRoundingMode)
        ensures
            mode == self.unsigned_mode(is_positive),
    {
        match self {
            TemporalRoundingMode::Ceil => if is_positive {
                TemporalUnsignedRoundingMode::Infinity
            } else {
                TemporalUnsignedRoundingMode::Zero
            },
            TemporalRoundingMode::Floor => if is_positive {
                TemporalUnsignedRoundingMode::Zero
            } else {
                TemporalUnsignedRoundingMode::Infinity
            },
            TemporalRoundingMode::Expand => TemporalUnsignedRoundingMode::Infinity,
            TemporalRoundingMode::Trunc => TemporalUnsignedRoundingMode::Zero,
            TemporalRoundingMode::HalfCeil => if is_positive {
                TemporalUnsignedRoundingMode::HalfInfinity
            } else {
                TemporalUnsignedRoundingMode::HalfZero
            },
            TemporalRoundingMode::HalfFloor => if is_positive {
                TemporalUnsignedRoundingMode::HalfZero
            } else {
                TemporalUnsignedRoundingMode::HalfInfinity
            },
            TemporalRoundingMode::HalfExpand => TemporalUnsignedRoundingMode::HalfInfinity,
            TemporalRoundingMode::HalfTrunc => TemporalUnsignedRoundingMode::HalfZero,
            TemporalRoundingMode::HalfEven => TemporalUnsignedRoundingMode::HalfEven,
        }
    }

    /// Returns the mirrored mode.
    pub fn negate(self) -> (mode: TemporalRoundingMode)
        ensures
            mode == self.negated(),
    {
        match self {
            TemporalRoundingMode::Ceil => TemporalRoundingMode::Floor,
            TemporalRoundingMode::Floor => TemporalRoundingMode::Ceil,
            TemporalRoundingMode::HalfCeil => TemporalRoundingMode::HalfFloor,
            TemporalRoundingMode::HalfFloor => TemporalRoundingMode::HalfCeil,
            mode => mode,
        }
    }
}

impl Default for TemporalRoundingMode {
    fn default() -> (mode: TemporalRoundingMode)
        ensures
            mode == TemporalRoundingMode::HalfExpand,
    {
        TemporalRoundingMode::HalfExpand
    }
}

/// The units of time, from finest to coarsest, after `Auto`.
#[derive(Debug, Clone, Copy, PartialEq, Eq, PartialOrd, Ord, Structural)]
pub enum TemporalUnit {
    Auto,
    Nanosecond,
    Microsecond,
    Millisecond,
    Second,
    Minute,
    Hour,
    Day,
    Week,
    Month,
    Year,
}

impl TemporalUnit {
    /// The position of the unit in the enumeration: 0 for `Auto`, 1 for
    /// `Nanosecond`, up to 10 for `Year`. A coarser unit has a larger ordinal.
    pub open spec fn spec_ordinal(self) -> int {
        match self {
            TemporalUnit::Auto => 0,
            TemporalUnit::Nanosecond => 1,
            TemporalUnit::Microsecond => 2,
            TemporalUnit::Millisecond => 3,
            TemporalUnit::Second => 4,
            TemporalUnit::Minute => 5,
            TemporalUnit::Hour => 6,
            TemporalUnit::Day => 7,
            TemporalUnit::Week => 8,
            TemporalUnit::Month => 9,
            TemporalUnit::Year => 10,
        }
    }

    /// Whether the unit is one of hour, minute, second, millisecond,
    /// microsecond, nanosecond.
    pub open spec fn spec_is_time_unit(self) -> bool {
        1 <= self.spec_ordinal() <= 6
    }

    /// The length of a time unit in nanoseconds; `None` for the other units.
    pub open spec fn nanoseconds(self) -> Option<int> {
        match self {
            TemporalUnit::Nanosecond => Some(1int),
            TemporalUnit::Microsecond => Some(1_000int),
            TemporalUnit::Millisecond => Some(1_000_000int),
            TemporalUnit::Second => Some(1_000_000_000int),
            TemporalUnit::Minute => Some(60_000_000_000int),
            TemporalUnit::Hour => Some(3_600_000_000_000int),
            _ => None,
        }
    }

    /// How many of a time unit make up the next coarser one: 24 for hours, 60
    /// for minutes and seconds, 1000 below; `None` for the other units.
    pub open spec fn maximum_rounding_increment(self) -> Option<int> {
        match self {
            TemporalUnit::Hour => Some(24int),
            TemporalUnit::Minute | TemporalUnit::Second => Some(60int),
            TemporalUnit::Millisecond | TemporalUnit::Microsecond | TemporalUnit::Nanosecond => Some(
                1000int,
            ),
            _ => None,
        }
    }

    /// How many of a time unit make up one day; `None` for the other units.
    pub open spec fn per_day(self) -> Option<int> {
        match self {
            TemporalUnit::Hour => Some(24int),
            TemporalUnit::Minute => Some(1_440int),
            TemporalUnit::Second => Some(86_400int),
            TemporalUnit::Millisecond => Some(86_400_000int),
            TemporalUnit::Microsecond => Some(86_400_000_000int),
            TemporalUnit::Nanosecond => Some(86_400_000_000_000int),
            _ => None,
        }
    }

    /// The coarser of two units.
    pub open spec fn larger_of(self, other: TemporalUnit) -> TemporalUnit {
        if self.spec_ordinal() >= other.spec_ordinal() {
            self
        } else {
            other
        }
    }

    /// Returns the position of the unit in the enumeration.
    pub fn ordinal(self) -> (ordinal: u8)
        ensures
            ordinal == self.spec_ordinal(),
    {
        match self {
            TemporalUnit::Auto => 0,
            TemporalUnit::Nanosecond => 1,
            TemporalUnit::Microsecond => 2,
            TemporalUnit::Millisecond => 3,
            TemporalUnit::Second => 4,
            TemporalUnit::Minute => 5,
            TemporalUnit::Hour => 6,
            TemporalUnit::Day => 7,
            TemporalUnit::Week => 8,
            TemporalUnit::Month => 9,
            TemporalUnit::Year => 10,
        }
    }

    /// Returns the unit at a position of the enumeration, if there is one.
    pub fn from_ordinal(ordinal: u8) -> (unit: Option<TemporalUnit>)
        ensures
            ordinal <= 10 ==> unit is Some && unit.unwrap().spec_ordinal() == ordinal,
            ordinal > 10 ==> unit is None,
    {
        match ordinal {
            0 => Some(TemporalUnit::Auto),
            1 => Some(TemporalUnit::Nanosecond),
            2 => Some(TemporalUnit::Microsecond),
            3 => Some(TemporalUnit::Millisecond),
            4 => Some(TemporalUnit::Second),
            5 => Some(TemporalUnit::Minute),
            6 => Some(TemporalUnit::Hour),
            7 => Some(TemporalUnit::Day),
            8 => Some(TemporalUnit::Week),
            9 => Some(TemporalUnit::Month),
            10 => Some(TemporalUnit::Year),
            _ => None,
        }
    }

    /// Whether the unit is a unit of time of day.
    pub fn is_time_unit(self) -> (yes: bool)
        ensures
            yes == self.spec_is_time_unit(),
    {
        let ordinal: u8 = self.ordinal();
        1 <= ordinal && ordinal <= 6
    }

    /// Whether the unit is a week, a month or a year.
    pub fn is_calendar_unit(self) -> (yes: bool)
        ensures
            yes == (self.spec_ordinal() >= 8),
    {
        self.ordinal() >= 8
    }

    /// Returns the coarser of two units.
    pub fn max(self, other: TemporalUnit) -> (unit: TemporalUnit)
        ensures
            unit == self.larger_of(other),
    {
        if self.ordinal() >= other.ordinal() {
            self
        } else {
            other
        }
    }

    /// Returns the length of a time unit in nanoseconds.
    pub fn as_nanoseconds(self) -> (length: Option<u64>)
        ensures
            match length {
                Some(n) => self.nanoseconds() == Some(n as int),
                None => self.nanoseconds() is None,
            },
    {
        match self {
            TemporalUnit::Nanosecond => Some(1),
            TemporalUnit::Microsecond => Some(1_000),
            TemporalUnit::Millisecond => Some(1_000_000),
            TemporalUnit::Second => Some(1_000_000_000),
            TemporalUnit::Minute => Some(60_000_000_000),
            TemporalUnit::Hour => Some(3_600_000_000_000),
            _ => None,
        }
    }

    /// Returns how many of a time unit make up the next coarser one.
    pub fn to_maximum_rounding_increment(self) -> (maximum: Option<u16>)
        ensures
            match maximum {
                Some(n) => self.maximum_rounding_increment() == Some(n as int),
                None => self.maximum_rounding_increment() is None,
            },
    {
        match self {
            TemporalUnit::Hour => Some(24),
            TemporalUnit::Minute | TemporalUnit::Second => Some(60),
            TemporalUnit::Millisecond | TemporalUnit::Microsecond | TemporalUnit::Nanosecond => Some(
                1000,
            ),
            _ => None,
        }
    }

    /// Returns how many of a time unit make up one day.
    pub fn to_maximum_day_increment(self) -> (maximum: Option<u64>)
        ensures
            match maximum {
                Some(n) => self.per_day() == Some(n as int),
                None => self.per_day() is None,
            },
    {
        match self {
            TemporalUnit::Hour => Some(24),
            TemporalUnit::Minute => Some(1_440),
            TemporalUnit::Second => Some(86_400),
            TemporalUnit::Millisecond => Some(86_400_000),
            TemporalUnit::Microsecond => Some(86_400_000_000),
            TemporalUnit::Nanosecond => Some(86_400_000_000_000),
            _ => None,
        }
    }
}

/// Whether `increment` is admitted against `dividend`: it is at most the
/// dividend (less than it, unless `inclusive`) and divides it evenly.
pub open spec fn increment_fits(increment: int, dividend: int, inclusive: bool) -> bool {
    &&& increment >= 1
    &&& if inclusive {
        increment <= dividend
    } else {
        increment < dividend
    }
    &&& dividend % increment == 0
}

/// The largest rounding increment.
pub const MAX_ROUNDING_INCREMENT: u32 = 1_000_000_000;

/// A rounding increment: an integer from 1 to 10^9.
#[derive(Debug, Clone, Copy, PartialEq, Eq)]
pub struct RoundingIncrement {
    value: u32,
}

impl View for RoundingIncrement {
    type V = int;

    closed spec fn view(&self) -> int {
        self.value as int
    }
}

impl RoundingIncrement {
    /// Every increment lies between 1 and 10^9.
    #[verifier::type_invariant]
    pub open spec fn in_range(self) -> bool {
        1 <= self@ <= 1_000_000_000
    }

    /// The increment 1.
    pub fn one() -> (increment: RoundingIncrement)
        ensures
            increment@ == 1,
    {
        RoundingIncrement { value: 1 }
    }

    /// Makes an increment of `increment`, which must lie between 1 and 10^9.
    pub fn try_new(increment: u32) -> (result: Result<RoundingIncrement, TemporalError>)
        ensures
            result is Ok <==> 1 <= increment <= 1_000_000_000,
            result matches Ok(made) ==> made@ == increment,
            result matches Err(error) ==> error == range_error(),
    {
        if 1 <= increment && increment <= MAX_ROUNDING_INCREMENT {
            Ok(RoundingIncrement { value: increment })
        } else {
            Err(TemporalError::range())
        }
    }

    /// Makes an increment of any integer, which must lie between 1 and 10^9.
    pub fn try_from_integer(increment: i64) -> (result: Result<RoundingIncrement, TemporalError>)
        ensures
            result is Ok <==> 1 <= increment <= 1_000_000_000,
            result matches Ok(made) ==> made@ == increment,
            result matches Err(error) ==> error == range_error(),
    {
        if 1 <= increment && increment <= 1_000_000_000 {
            Ok(RoundingIncrement { value: increment as u32 })
        } else {
            Err(TemporalError::range())
        }
    }

    /// Returns the increment.
    pub fn get(self) -> (value: u32)
        ensures
            value == self@,
            1 <= value <= 1_000_000_000,
    {
        proof {
            use_type_invariant(self);
        }
        self.value
    }

    /// Returns the increment as a wide integer.
    pub fn as_extended_increment(&self) -> (value: i128)
        ensures
            value == self@,
            1 <= value <= 1_000_000_000,
    {
        proof {
            use_type_invariant(self);
        }
        self.value as i128
    }

    /// Checks the increment against `dividend`: it must not exceed the
    /// dividend (must be less than it, unless `inclusive`), and must divide
    /// it evenly.
    pub fn validate(self, dividend: u64, inclusive: bool) -> (result: Result<(), TemporalError>)
        ensures
            result is Ok <==> increment_fits(self@, dividend as int, inclusive),
            result matches Err(error) ==> error == range_error(),
    {
        let increment: u64 = self.get() as u64;
        if inclusive && increment > dividend {
            return Err(TemporalError::range());
        }
        if !inclusive && increment >= dividend {
            return Err(TemporalError::range());
        }
        if dividend % increment != 0 {
            return Err(TemporalError::range());
        }
        Ok(())
    }
}

/// Whether a difference runs from the other value to this one, or from this
/// one to the other.
#[derive(Debug, Clone, Copy, PartialEq, Eq, Structural)]
pub enum DifferenceOperation {
    Until,
    Since,
}

impl DifferenceOperation {
    /// The sign applied to a difference `other - this`: positive for
    /// `Until`, negative for `Since`.
    pub open spec fn spec_sign(self) -> Sign {
        match self {
            DifferenceOperation::Until => Sign::Positive,
            DifferenceOperation::Since => Sign::Negative,
        }
    }

    /// Returns the sign applied to a difference `other - this`.
    pub fn sign(self) -> (sign: Sign)
        ensures
            sign == self.spec_sign(),
    {
        match self {
            DifferenceOperation::Until => Sign::Positive,
            DifferenceOperation::Since => Sign::Negative,
        }
    }
}

/// The settings of a difference, each of them optional.
#[derive(Debug, Clone, Copy, PartialEq, Eq)]
pub struct DifferenceSettings {
    pub largest_unit: Option<TemporalUnit>,
    pub smallest_unit: Option<TemporalUnit>,
    pub rounding_mode: Option<TemporalRoundingMode>,
    pub increment: Option<RoundingIncrement>,
}

/// The settings of a difference as plain values.
pub struct DifferenceSettingsView {
    pub largest_unit: Option<TemporalUnit>,
    pub smallest_unit: Option<TemporalUnit>,
    pub rounding_mode: Option<TemporalRoundingMode>,
    pub increment: Option<int>,
}

impl View for DifferenceSettings {
    type V = DifferenceSettingsView;

    open spec fn view(&self) -> DifferenceSettingsView {
        DifferenceSettingsView {
            largest_unit: self.largest_unit,
            smallest_unit: self.smallest_unit,
            rounding_mode: self.rounding_mode,
            increment: match self.increment {
                Some(increment) => Some(increment@),
                None => None,
            },
        }
    }
}

impl Default for DifferenceSettings {
    fn default() -> (settings: DifferenceSettings)
        ensures
            settings.largest_unit is None,
            settings.smallest_unit is None,
            settings.rounding_mode is None,
            settings.increment is None,
    {
        DifferenceSettings {
            largest_unit: None,
            smallest_unit: None,
            rounding_mode: None,
            increment: None,
        }
    }
}

/// A rounding request in canonical form.
#[derive(Debug, Clone, Copy, PartialEq, Eq)]
pub struct ResolvedRoundingOptions {
    pub largest_unit: TemporalUnit,
    pub smallest_unit: TemporalUnit,
    pub increment: RoundingIncrement,
    pub rounding_mode: TemporalRoundingMode,
}

/// A rounding request in canonical form, as plain values.
pub struct ResolvedRoundingOptionsView {
    pub largest_unit: TemporalUnit,
    pub smallest_unit: TemporalUnit,
    pub increment: int,
    pub rounding_mode: TemporalRoundingMode,
}

impl View for ResolvedRoundingOptions {
    type V = ResolvedRoundingOptionsView;

    open spec fn view(&self) -> ResolvedRoundingOptionsView {
        ResolvedRoundingOptionsView {
            largest_unit: self.largest_unit,
            smallest_unit: self.smallest_unit,
            increment: self.increment@,
            rounding_mode: self.rounding_mode,
        }
    }
}

impl DifferenceSettingsView {
    /// The smallest unit asked for, or the fallback where none is given.
    pub open spec fn smallest_or(self, fallback_smallest: TemporalUnit) -> TemporalUnit {
        match self.smallest_unit {
            Some(unit) => unit,
            None => fallback_smallest,
        }
    }

    /// The largest unit asked for. Where none or `Auto` is given, the coarser
    /// of the fallback and the smallest unit.
    pub open spec fn largest_or(
        self,
        fallback_largest: TemporalUnit,
        fallback_smallest: TemporalUnit,
    ) -> TemporalUnit {
        match self.largest_unit {
            Some(unit) if unit != TemporalUnit::Auto => unit,
            _ => fallback_largest.larger_of(self.smallest_or(fallback_smallest)),
        }
    }

    /// The increment asked for, or 1.
    pub open spec fn increment_or_one(self) -> int {
        match self.increment {
            Some(increment) => increment,
            None => 1,
        }
    }

    /// The rounding mode asked for, or `HalfExpand`.
    pub open spec fn mode_or_default(self) -> TemporalRoundingMode {
        match self.rounding_mode {
            Some(mode) => mode,
            None => TemporalRoundingMode::HalfExpand,
        }
    }

    /// Whether the settings can be resolved: the smallest unit is not `Auto`,
    /// the largest unit is not finer than the smallest, and where the smallest
    /// unit is a unit of time, the increment is less than the number of such
    /// units in the next coarser one and divides that number.
    pub open spec fn resolvable(
        self,
        fallback_largest: TemporalUnit,
        fallback_smallest: TemporalUnit,
    ) -> bool {
        let smallest = self.smallest_or(fallback_smallest);
        let largest = self.largest_or(fallback_largest, fallback_smallest);
        &&& smallest != TemporalUnit::Auto
        &&& largest.spec_ordinal() >= smallest.spec_ordinal()
        &&& match smallest.maximum_rounding_increment() {
            Some(maximum) => increment_fits(self.increment_or_one(), maximum, false),
            None => true,
        }
    }

    /// The canonical form of resolvable settings.
    pub open spec fn resolved(
        self,
        fallback_largest: TemporalUnit,
        fallback_smallest: TemporalUnit,
    ) -> ResolvedRoundingOptionsView {
        ResolvedRoundingOptionsView {
            largest_unit: self.largest_or(fallback_largest, fallback_smallest),
            smallest_unit: self.smallest_or(fallback_smallest),
            increment: self.increment_or_one(),
            rounding_mode: self.mode_or_default(),
        }
    }
}

impl ResolvedRoundingOptions {
    /// Resolves the settings of a difference. The smallest unit defaults to
    /// `fallback_smallest`; the largest unit, where absent or `Auto`, to the
    /// coarser of `fallback_largest` and the smallest unit; the increment to
    /// 1; the rounding mode to `HalfExpand`. The sign is positive for `Until`
    /// and negative for `Since`, and plays no part in the rounding.
    ///
    /// Fails with a range error exactly when the settings are not resolvable.
    pub fn from_diff_settings(
        options: DifferenceSettings,
        operation: DifferenceOperation,
        fallback_largest: TemporalUnit,
        fallback_smallest: TemporalUnit,
    ) -> (result: Result<(Sign, ResolvedRoundingOptions), TemporalError>)
        ensures
            result is Ok <==> options@.resolvable(fallback_largest, fallback_smallest),
            result matches Ok((sign, resolved)) ==> {
                &&& sign == operation.spec_sign()
                &&& resolved@ == options@.resolved(fallback_largest, fallback_smallest)
            },
            result matches Err(error) ==> error == range_error(),
    {
        let increment: RoundingIncrement = match options.increment {
            Some(increment) => increment,
            None => RoundingIncrement::one(),
        };
        let rounding_mode: TemporalRoundingMode = match options.rounding_mode {
            Some(mode) => mode,
            None => TemporalRoundingMode::HalfExpand,
        };
        let smallest_unit: TemporalUnit = match options.smallest_unit {
            Some(unit) => unit,
            None => fallback_smallest,
        };
        if smallest_unit.ordinal() == 0 {
            return Err(TemporalError::range());
        }
        let default_largest: TemporalUnit = fallback_largest.max(smallest_unit);
        let largest_unit: TemporalUnit = match options.largest_unit {
            Some(unit) => if unit.ordinal() == 0 {
                default_largest
            } else {
                unit
            },
            None => default_largest,
        };
        if largest_unit.ordinal() < smallest_unit.ordinal() {
            return Err(TemporalError::range());
        }
        match smallest_unit.to_maximum_rounding_increment() {
            Some(maximum) => {
                match increment.validate(maximum as u64, false) {
                    Ok(()) => {},
                    Err(error) => {
                        return Err(error);
                    },
                }
            },
            None => {},
        }
        let resolved = ResolvedRoundingOptions {
            largest_unit,
            smallest_unit,
            increment,
            rounding_mode,
        };
        Ok((operation.sign(), resolved))
    }
}

/// How many fractional digits of a second are printed.
#[derive(Debug, Clone, Copy, PartialEq, Eq, Structural)]
pub enum PrecisionKind {
    /// As many as the value needs.
    Auto,
    /// None, and no seconds either.
    Minute,
    /// A fixed number of digits.
    Digit(u8),
}

/// A precision as a flat record: minute precision where `is_minute` is set,
/// else the number of digits in `precision`, else automatic.
#[derive(Debug, Clone, Copy, PartialEq, Eq, Structural)]
pub struct Precision {
    /// Sets the precision to minute precision.
    pub is_minute: bool,
    /// Sets the number of digits. Has no effect if `is_minute` is set.
    pub precision: Option<u8>,
}

impl Precision {
    /// The precision that the record selects.
    pub open spec fn selected(self) -> PrecisionKind {
        if self.is_minute {
            PrecisionKind::Minute
        } else {
            match self.precision {
                Some(digit) => PrecisionKind::Digit(digit),
                None => PrecisionKind::Auto,
            }
        }
    }

    /// Returns the precision that the record selects.
    pub fn kind(self) -> (kind: PrecisionKind)
        ensures
            kind == self.selected(),
    {
        if self.is_minute {
            PrecisionKind::Minute
        } else {
            match self.precision {
                Some(digit) => PrecisionKind::Digit(digit),
                None => PrecisionKind::Auto,
            }
        }
    }
}

impl From<Precision> for PrecisionKind {
    fn from(other: Precision) -> (kind: PrecisionKind) {
        other.kind()
    }
}

impl vstd::std_specs::convert::FromSpecImpl<Precision> for PrecisionKind {
    open spec fn obeys_from_spec() -> bool {
        true
    }

    open spec fn from_spec(other: Precision) -> PrecisionKind {
        other.selected()
    }
}

/// How a value is rounded for printing, as a flat record.
#[derive(Debug, Clone, Copy, PartialEq, Eq, Structural)]
pub struct ToStringRoundingOptions {
    pub precision: Precision,
    pub smallest_unit: Option<TemporalUnit>,
    pub rounding_mode: Option<TemporalRoundingMode>,
}

/// How a value is rounded for printing.
#[derive(Debug, Clone, Copy, PartialEq, Eq, Structural)]
pub struct ResolvedToStringRoundingOptions {
    pub precision: PrecisionKind,
    pub smallest_unit: Option<TemporalUnit>,
    pub rounding_mode: Option<TemporalRoundingMode>,
}

impl ToStringRoundingOptions {
    /// The options with the precision selected; the other fields unchanged.
    pub open spec fn selected(self) -> ResolvedToStringRoundingOptions {
        ResolvedToStringRoundingOptions {
            precision: self.precision.selected(),
            smallest_unit: self.smallest_unit,
            rounding_mode: self.rounding_mode,
        }
    }

    /// Returns the options with the precision selected.
    pub fn resolve(self) -> (options: ResolvedToStringRoundingOptions)
        ensures
            options == self.selected(),
    {
        ResolvedToStringRoundingOptions {
            precision: self.precision.kind(),
            smallest_unit: self.smallest_unit,
            rounding_mode: self.rounding_mode,
        }
    }
}

impl From<ToStringRoundingOptions> for ResolvedToStringRoundingOptions {
    fn from(other: ToStringRoundingOptions) -> (options: ResolvedToStringRoundingOptions) {
        other.resolve()
    }
}

impl vstd::std_specs::convert::FromSpecImpl<ToStringRoundingOptions> for ResolvedToStringRoundingOptions {
    open spec fn obeys_from_spec() -> bool {
        true
    }

    open spec fn from_spec(other: ToStringRoundingOptions) -> ResolvedToStringRoundingOptions {
        other.selected()
    }
}

} // verus!
