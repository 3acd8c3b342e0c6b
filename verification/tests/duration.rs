use temporal_core::duration::{DateDuration, Duration, TimeDuration};
use temporal_core::error::ErrorKind;
use temporal_core::iso::IsoTime;
use temporal_core::normalized::NormalizedTimeDuration;
use temporal_core::options::{
    ArithmeticOverflow, DifferenceOperation, DifferenceSettings, ResolvedRoundingOptions,
    RoundingIncrement, TemporalRoundingMode, TemporalUnit,
};
use temporal_core::parsers::{
    contains_long_fraction, parse_duration, parse_time, select_time, DurationRecord, TimeDurationRecord,
    TimeRecord,
};
use temporal_core::time::PartialTime;
use temporal_core::{Sign, MAX_TIME_DURATION};

fn fields(duration: &TimeDuration) -> (i128, i128, i128, i128, i128, i128) {
    (
        duration.hours(),
        duration.minutes(),
        duration.seconds(),
        duration.milliseconds(),
        duration.microseconds(),
        duration.nanoseconds(),
    )
}

#[test]
fn time_duration_needs_one_sign() {
    assert!(TimeDuration::new(1, 2, 3, 4, 5, 6).is_ok());
    assert!(TimeDuration::new(-1, -2, -3, -4, -5, -6).is_ok());
    assert!(TimeDuration::new(0, 0, 0, 0, 0, 0).is_ok());
    assert_eq!(
        TimeDuration::new(1, -2, 0, 0, 0, 0).unwrap_err().kind(),
        ErrorKind::Range
    );
    assert!(TimeDuration::new(0, 0, 0, 0, -1, 1).is_err());
}

#[test]
fn time_duration_is_shorter_than_two_to_the_53_seconds() {
    assert!(TimeDuration::new(0, 0, 9_007_199_254_740_991, 0, 0, 999_999_999).is_ok());
    assert!(TimeDuration::new(0, 0, 9_007_199_254_740_992, 0, 0, 0).is_err());
    assert!(TimeDuration::new(0, 0, 0, 0, 0, MAX_TIME_DURATION).is_ok());
    assert!(TimeDuration::new(0, 0, 0, 0, 0, -MAX_TIME_DURATION - 1).is_err());
    assert!(TimeDuration::new(i128::MAX, 0, 0, 0, 0, 0).is_err());
    assert!(TimeDuration::new(i128::MIN, i128::MIN, 0, 0, 0, 0).is_err());
}

#[test]
fn time_duration_negates_every_component() {
    let duration = TimeDuration::new(1, 2, 3, 4, 5, 6).unwrap();
    assert_eq!(fields(&duration.negated()), (-1, -2, -3, -4, -5, -6));
    assert_eq!(duration.negated().negated(), duration);
    assert_eq!(duration.negated().abs(), duration);
    assert_eq!(duration.abs(), duration);
    assert_eq!(duration.sign(), Sign::Positive);
    assert_eq!(duration.negated().sign(), Sign::Negative);
    assert_eq!(TimeDuration::zero().sign(), Sign::Zero);
    assert!(TimeDuration::zero().is_zero());
    assert!(!duration.is_zero());
    assert_eq!(
        fields(&TimeDuration::new_unchecked(0, 0, 0, 0, 0, 7)),
        (0, 0, 0, 0, 0, 7)
    );
}

#[test]
fn normalizing_is_exact() {
    let duration = TimeDuration::new(1, 2, 3, 4, 5, 6).unwrap();
    assert_eq!(duration.total_nanoseconds(), 3_723_004_005_006);
    let normalized = duration.to_normalized();
    assert_eq!(normalized.total_nanoseconds(), 3_723_004_005_006);
    assert_eq!(normalized.seconds(), 3_723);
    assert_eq!(normalized.subseconds(), 4_005_006);
    assert_eq!(normalized.sign(), Sign::Positive);
    assert_eq!(normalized.negated().total_nanoseconds(), -3_723_004_005_006);
    assert_eq!(NormalizedTimeDuration::zero().total_nanoseconds(), 0);
    assert_eq!(
        NormalizedTimeDuration::from_time_duration(&duration),
        normalized
    );
}

#[test]
fn balancing_folds_into_the_largest_unit() {
    let normalized = NormalizedTimeDuration::try_new(93_784_005_006_007).unwrap();
    let balance = |unit| {
        let (days, duration) = TimeDuration::from_normalized(normalized, unit).unwrap();
        (days, fields(&duration))
    };
    assert_eq!(balance(TemporalUnit::Day), (1, (2, 3, 4, 5, 6, 7)));
    assert_eq!(balance(TemporalUnit::Year), (1, (2, 3, 4, 5, 6, 7)));
    assert_eq!(balance(TemporalUnit::Hour), (0, (26, 3, 4, 5, 6, 7)));
    assert_eq!(balance(TemporalUnit::Minute), (0, (0, 1563, 4, 5, 6, 7)));
    assert_eq!(balance(TemporalUnit::Second), (0, (0, 0, 93_784, 5, 6, 7)));
    assert_eq!(balance(TemporalUnit::Millisecond), (0, (0, 0, 0, 93_784_005, 6, 7)));
    assert_eq!(
        balance(TemporalUnit::Microsecond),
        (0, (0, 0, 0, 0, 93_784_005_006, 7))
    );
    assert_eq!(
        balance(TemporalUnit::Nanosecond),
        (0, (0, 0, 0, 0, 0, 93_784_005_006_007))
    );
    assert_eq!(
        TimeDuration::from_normalized(normalized, TemporalUnit::Auto)
            .unwrap_err()
            .kind(),
        ErrorKind::Range
    );
}

#[test]
fn balancing_keeps_the_sign() {
    let normalized = NormalizedTimeDuration::try_new(-93_784_005_006_007).unwrap();
    let (days, duration) = TimeDuration::from_normalized(normalized, TemporalUnit::Day).unwrap();
    assert_eq!(days, -1);
    assert_eq!(fields(&duration), (-2, -3, -4, -5, -6, -7));
}

#[test]
fn normalize_then_balance_is_lossless() {
    let duration = TimeDuration::new(0, 0, -75, -1_500, 0, -2_000_001).unwrap();
    let normalized = duration.to_normalized();
    for unit in [
        TemporalUnit::Nanosecond,
        TemporalUnit::Microsecond,
        TemporalUnit::Millisecond,
        TemporalUnit::Second,
        TemporalUnit::Minute,
        TemporalUnit::Hour,
    ] {
        let (days, balanced) = TimeDuration::from_normalized(normalized, unit).unwrap();
        assert_eq!(days, 0);
        assert_eq!(balanced.to_normalized(), normalized);
    }
    let balanced = TimeDuration::new(0, 0, 59, 999, 999, 999).unwrap();
    let again = TimeDuration::from_normalized(balanced.to_normalized(), TemporalUnit::Second)
        .unwrap()
        .1;
    assert_eq!(again, balanced);
}

#[test]
fn normalized_arithmetic_is_checked() {
    let most = NormalizedTimeDuration::try_new(MAX_TIME_DURATION).unwrap();
    let one = NormalizedTimeDuration::try_new(1).unwrap();
    assert_eq!(most.checked_add(&one).unwrap_err().kind(), ErrorKind::Range);
    assert_eq!(
        most.checked_sub(&one).unwrap().total_nanoseconds(),
        MAX_TIME_DURATION - 1
    );
    assert!(most.negated().checked_sub(&one).is_err());
    assert!(NormalizedTimeDuration::try_new(MAX_TIME_DURATION + 1).is_err());
    assert!(NormalizedTimeDuration::try_new(-MAX_TIME_DURATION - 1).is_err());
    assert_eq!(
        NormalizedTimeDuration::from_nanosecond_difference(5, 8)
            .unwrap()
            .total_nanoseconds(),
        -3
    );
    assert!(NormalizedTimeDuration::from_nanosecond_difference(i128::MAX, -1).is_err());
    assert!(NormalizedTimeDuration::from_nanosecond_difference(MAX_TIME_DURATION, -1).is_err());
}

fn options(unit: TemporalUnit, increment: u32, mode: TemporalRoundingMode) -> ResolvedRoundingOptions {
    ResolvedRoundingOptions {
        largest_unit: TemporalUnit::Auto,
        smallest_unit: unit,
        increment: RoundingIncrement::try_new(increment).unwrap(),
        rounding_mode: mode,
    }
}

#[test]
fn normalized_rounding_scales_the_increment() {
    let normalized = NormalizedTimeDuration::try_new(-5_400_000_000_001).unwrap();
    let round = |unit, increment, mode| {
        normalized
            .round(options(unit, increment, mode))
            .map(|rounded| rounded.total_nanoseconds())
    };
    assert_eq!(
        round(TemporalUnit::Hour, 1, TemporalRoundingMode::HalfExpand).unwrap(),
        -7_200_000_000_000
    );
    assert_eq!(
        round(TemporalUnit::Hour, 1, TemporalRoundingMode::Trunc).unwrap(),
        -3_600_000_000_000
    );
    assert_eq!(
        round(TemporalUnit::Minute, 30, TemporalRoundingMode::Ceil).unwrap(),
        -5_400_000_000_000
    );
    assert_eq!(
        round(TemporalUnit::Nanosecond, 1, TemporalRoundingMode::Expand).unwrap(),
        -5_400_000_000_001
    );
    assert_eq!(
        round(TemporalUnit::Day, 1, TemporalRoundingMode::Expand)
            .unwrap_err()
            .kind(),
        ErrorKind::Range
    );
    let most = NormalizedTimeDuration::try_new(MAX_TIME_DURATION).unwrap();
    assert!(most
        .round(options(TemporalUnit::Hour, 1, TemporalRoundingMode::Ceil))
        .is_err());
    assert_eq!(
        most.round(options(TemporalUnit::Hour, 1, TemporalRoundingMode::Floor))
            .unwrap()
            .total_nanoseconds(),
        9_007_199_254_738_800_000_000_000
    );
}

#[test]
fn difference_rounds_balances_and_signs() {
    let delta = NormalizedTimeDuration::try_new(5_400_000_000_001).unwrap();
    let settings = DifferenceSettings {
        smallest_unit: Some(TemporalUnit::Minute),
        rounding_mode: Some(TemporalRoundingMode::Expand),
        ..DifferenceSettings::default()
    };
    let until =
        TimeDuration::difference(delta, DifferenceOperation::Until, settings, TemporalUnit::Hour)
            .unwrap();
    assert_eq!(fields(&until), (1, 31, 0, 0, 0, 0));
    let since =
        TimeDuration::difference(delta, DifferenceOperation::Since, settings, TemporalUnit::Hour)
            .unwrap();
    assert_eq!(since, until.negated());
    let far = NormalizedTimeDuration::try_new(MAX_TIME_DURATION).unwrap();
    assert_eq!(
        TimeDuration::difference(far, DifferenceOperation::Until, settings, TemporalUnit::Hour)
            .unwrap_err()
            .kind(),
        ErrorKind::Range
    );
}

#[test]
fn duration_joins_date_and_time() {
    let duration = Duration::new(1, 2, 3, 4, 5, 6, 7, 8, 9, 10).unwrap();
    assert_eq!(
        (duration.years(), duration.months(), duration.weeks(), duration.days()),
        (1, 2, 3, 4)
    );
    assert_eq!(fields(duration.time()), (5, 6, 7, 8, 9, 10));
    assert_eq!(
        (
            duration.hours(),
            duration.minutes(),
            duration.seconds(),
            duration.milliseconds(),
            duration.microseconds(),
            duration.nanoseconds()
        ),
        (5, 6, 7, 8, 9, 10)
    );
    assert!(!duration.is_time_duration());
    assert_eq!(duration.date().days(), 4);
    assert_eq!(duration.negated().years(), -1);
    assert_eq!(duration.negated().nanoseconds(), -10);
    let time_only = Duration::from_time_duration(*duration.time());
    assert!(time_only.is_time_duration());
    assert_eq!(time_only.hours(), 5);
    assert!(time_only.date().is_zero());
}

#[test]
fn duration_rejects_mixed_signs_and_overlong_parts() {
    assert_eq!(
        Duration::new(1, 0, 0, 0, -1, 0, 0, 0, 0, 0).unwrap_err().kind(),
        ErrorKind::Range
    );
    assert!(Duration::new(0, -1, 0, 1, 0, 0, 0, 0, 0, 0).is_err());
    assert!(Duration::new(4_294_967_296, 0, 0, 0, 0, 0, 0, 0, 0, 0).is_err());
    assert!(Duration::new(4_294_967_295, 0, 0, 0, 0, 0, 0, 0, 0, 0).is_ok());
    assert!(Duration::new(0, 0, -4_294_967_296, 0, 0, 0, 0, 0, 0, 0).is_err());
    assert!(Duration::new(0, 0, 0, 104_249_991_374, 0, 0, 0, 0, 0, 0).is_ok());
    assert!(Duration::new(0, 0, 0, 104_249_991_375, 0, 0, 0, 0, 0, 0).is_err());
    assert!(Duration::new(0, 0, 0, 104_249_991_374, 24, 0, 0, 0, 0, 0).is_err());
    assert!(DateDuration::new(0, 0, 0, i64::MIN).is_err());
    assert_eq!(DateDuration::new(-1, -2, -3, -4).unwrap().negated().months(), 2);
    assert_eq!(DateDuration::zero().weeks(), 0);
    assert_eq!(DateDuration::new(9, 0, 0, 0).unwrap().years(), 9);
    let date = DateDuration::new(0, 0, 0, 1).unwrap();
    let time = TimeDuration::new(0, 0, 0, 0, 0, -1).unwrap();
    assert!(Duration::from_parts(date, time).is_err());
    assert!(Duration::from_parts(date, time.negated()).is_ok());
}

#[test]
fn duration_parses_whole_and_fractional_parts() {
    let duration = "PT16H".parse::<Duration>().unwrap();
    assert_eq!(duration, Duration::new(0, 0, 0, 0, 16, 0, 0, 0, 0, 0).unwrap());
    let duration = Duration::parse("-P1Y2M3W4DT5H6M7.008009010S").unwrap();
    assert_eq!(
        duration,
        Duration::new(-1, -2, -3, -4, -5, -6, -7, -8, -9, -10).unwrap()
    );
    let duration = Duration::parse("PT1.5H").unwrap();
    assert_eq!(fields(duration.time()), (1, 30, 0, 0, 0, 0));
    let duration = Duration::parse("PT2H0.25M").unwrap();
    assert_eq!(fields(duration.time()), (2, 0, 15, 0, 0, 0));
    assert_eq!(
        Duration::parse("16 hours").unwrap_err().kind(),
        ErrorKind::Range
    );
    assert!(Duration::parse("PT1.0000000001S").is_err());
    assert!(Duration::parse("").is_err());
}

#[test]
fn duration_records_carry_the_parse() {
    assert_eq!(
        parse_duration("-PT2H30M"),
        Some(DurationRecord {
            sign: -1,
            date: None,
            time: Some(TimeDurationRecord::Minutes {
                hours: 2,
                minutes: 30,
                fraction: 0
            }),
        })
    );
    assert_eq!(parse_duration("PT"), None);
    let record = DurationRecord {
        sign: 1,
        date: None,
        time: Some(TimeDurationRecord::Seconds {
            hours: 0,
            minutes: 0,
            seconds: 4_000_000_000,
            fraction: 1_002_003,
        }),
    };
    let duration = Duration::from_record(record).unwrap();
    assert_eq!(fields(duration.time()), (0, 0, 4_000_000_000, 1, 2, 3));
    let overlong = DurationRecord {
        sign: -1,
        date: None,
        time: Some(TimeDurationRecord::Hours {
            hours: u32::MAX,
            fraction: u64::MAX,
        }),
    };
    let duration = Duration::from_record(overlong).unwrap();
    assert_eq!(duration.hours(), -4_294_967_295);
    assert_eq!(duration.minutes(), -307_445_734);
    assert_eq!(duration.nanoseconds(), -615);
}

#[test]
fn time_records_carry_the_parse() {
    assert_eq!(
        parse_time("T12:05:24.5"),
        Ok(TimeRecord {
            hour: 12,
            minute: 5,
            second: 24,
            nanosecond: 500_000_000
        })
    );
    assert_eq!(
        parse_time("2024-05-04T01:02"),
        Ok(TimeRecord {
            hour: 1,
            minute: 2,
            second: 0,
            nanosecond: 0
        })
    );
    assert_eq!(parse_time("x").unwrap_err().kind(), ErrorKind::Range);
    let first = TimeRecord {
        hour: 1,
        minute: 0,
        second: 0,
        nanosecond: 0,
    };
    let second = TimeRecord {
        hour: 2,
        minute: 0,
        second: 0,
        nanosecond: 0,
    };
    assert_eq!(select_time(Some(first), Some(second)), Ok(first));
    assert_eq!(select_time(None, Some(second)), Ok(second));
    assert!(select_time(None, None).is_err());
}

#[test]
fn long_fractions_are_found() {
    assert!(contains_long_fraction("T12:05:24.1234567890"));
    assert!(contains_long_fraction("PT0,00000000001S"));
    assert!(!contains_long_fraction("T12:05:24.123456789"));
    assert!(!contains_long_fraction("12345678901234567890"));
    assert!(!contains_long_fraction(".12345.6789"));
    assert!(!contains_long_fraction(""));
    assert!(contains_long_fraction("é.0000000000"));
}

#[test]
fn iso_time_balances_any_fields() {
    let (days, time) = IsoTime::balance(-1, 0, 0, 0, 0, 0);
    assert_eq!(days, -1);
    assert_eq!(time, IsoTime::new_unchecked(23, 0, 0, 0, 0, 0));
    let (days, time) = IsoTime::balance(47, 59, 59, 999, 999, 1001);
    assert_eq!(days, 2);
    assert_eq!(time, IsoTime::new_unchecked(0, 0, 0, 0, 0, 1));
    let (days, time) = IsoTime::balance(0, 0, 0, 0, 0, -86_400_000_000_001);
    assert_eq!(days, -2);
    assert_eq!(time, IsoTime::new_unchecked(23, 59, 59, 999, 999, 999));
}

#[test]
fn iso_time_differs_and_rounds() {
    let one = IsoTime::new_unchecked(15, 23, 30, 123, 456, 789);
    let two = IsoTime::new_unchecked(13, 30, 30, 123, 456, 789);
    assert_eq!(one.diff(&two).total_nanoseconds(), -6_780_000_000_000);
    assert_eq!(two.diff(&one).total_nanoseconds(), 6_780_000_000_000);
    assert_eq!(one.quantity_of(TemporalUnit::Second), 30_123_456_789);
    assert_eq!(one.quantity_of(TemporalUnit::Hour), 55_410_123_456_789);
    assert_eq!(one.quantity_of(TemporalUnit::Day), 0);
    let last = IsoTime::new_unchecked(23, 59, 30, 0, 0, 0);
    let (days, time) = last
        .round(options(TemporalUnit::Minute, 1, TemporalRoundingMode::HalfExpand))
        .unwrap();
    assert_eq!(days, 1);
    assert_eq!(time, IsoTime::new_unchecked(0, 0, 0, 0, 0, 0));
    assert!(last
        .round(options(TemporalUnit::Week, 1, TemporalRoundingMode::HalfExpand))
        .is_err());
    assert!(last.is_valid());
    assert!(!IsoTime::new_unchecked(0, 60, 0, 0, 0, 0).is_valid());
}

#[test]
fn iso_time_constructs_and_overlays() {
    assert_eq!(
        IsoTime::new(24, 0, 0, 0, 0, 0, ArithmeticOverflow::Constrain).unwrap(),
        IsoTime::new_unchecked(23, 0, 0, 0, 0, 0)
    );
    assert_eq!(
        IsoTime::new(24, 0, 0, 0, 0, 0, ArithmeticOverflow::Reject)
            .unwrap_err()
            .kind(),
        ErrorKind::Range
    );
    let base = IsoTime::new_unchecked(1, 2, 3, 4, 5, 6);
    let partial = PartialTime {
        hour: Some(-4),
        millisecond: Some(40),
        ..PartialTime::default()
    };
    assert_eq!(
        base.with(partial, ArithmeticOverflow::Constrain).unwrap(),
        IsoTime::new_unchecked(0, 2, 3, 40, 5, 6)
    );
    assert!(base.with(partial, ArithmeticOverflow::Reject).is_err());
    assert!(!partial.is_empty());
}
