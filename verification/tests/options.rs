use temporal_core::error::{ErrorKind, TemporalError};
use temporal_core::options::{
    DifferenceOperation, DifferenceSettings, Precision, PrecisionKind, ResolvedRoundingOptions,
    RoundingIncrement, TemporalRoundingMode, TemporalUnit, ToStringRoundingOptions,
};
use temporal_core::Sign;

const UNITS: [TemporalUnit; 11] = [
    TemporalUnit::Auto,
    TemporalUnit::Nanosecond,
    TemporalUnit::Microsecond,
    TemporalUnit::Millisecond,
    TemporalUnit::Second,
    TemporalUnit::Minute,
    TemporalUnit::Hour,
    TemporalUnit::Day,
    TemporalUnit::Week,
    TemporalUnit::Month,
    TemporalUnit::Year,
];

#[test]
fn unit_ordinals_run_from_zero_to_ten() {
    for (index, unit) in UNITS.iter().enumerate() {
        assert_eq!(unit.ordinal() as usize, index);
        assert_eq!(TemporalUnit::from_ordinal(index as u8), Some(*unit));
    }
    assert_eq!(TemporalUnit::from_ordinal(11), None);
    assert!(TemporalUnit::Hour > TemporalUnit::Second);
    assert!(TemporalUnit::Auto < TemporalUnit::Nanosecond);
    assert_eq!(TemporalUnit::Hour.max(TemporalUnit::Second), TemporalUnit::Hour);
    assert_eq!(TemporalUnit::Auto.max(TemporalUnit::Second), TemporalUnit::Second);
}

#[test]
fn unit_lengths_and_maxima() {
    let lengths = UNITS.map(|unit| unit.as_nanoseconds());
    assert_eq!(
        lengths,
        [
            None,
            Some(1),
            Some(1_000),
            Some(1_000_000),
            Some(1_000_000_000),
            Some(60_000_000_000),
            Some(3_600_000_000_000),
            None,
            None,
            None,
            None
        ]
    );
    let maxima = UNITS.map(|unit| unit.to_maximum_rounding_increment());
    assert_eq!(
        maxima,
        [
            None,
            Some(1000),
            Some(1000),
            Some(1000),
            Some(60),
            Some(60),
            Some(24),
            None,
            None,
            None,
            None
        ]
    );
    let per_day = UNITS.map(|unit| unit.to_maximum_day_increment());
    assert_eq!(
        per_day,
        [
            None,
            Some(86_400_000_000_000),
            Some(86_400_000_000),
            Some(86_400_000),
            Some(86_400),
            Some(1_440),
            Some(24),
            None,
            None,
            None,
            None
        ]
    );
    assert!(TemporalUnit::Hour.is_time_unit());
    assert!(!TemporalUnit::Day.is_time_unit());
    assert!(!TemporalUnit::Auto.is_time_unit());
    assert!(TemporalUnit::Week.is_calendar_unit());
    assert!(!TemporalUnit::Day.is_calendar_unit());
}

#[test]
fn increment_lies_between_one_and_a_billion() {
    assert_eq!(RoundingIncrement::try_new(1).unwrap().get(), 1);
    assert_eq!(RoundingIncrement::one().get(), 1);
    assert_eq!(
        RoundingIncrement::try_new(1_000_000_000).unwrap().get(),
        1_000_000_000
    );
    assert_eq!(
        RoundingIncrement::try_new(0).unwrap_err().kind(),
        ErrorKind::Range
    );
    assert!(RoundingIncrement::try_new(1_000_000_001).is_err());
    assert!(RoundingIncrement::try_from_integer(-5).is_err());
    assert!(RoundingIncrement::try_from_integer(i64::MAX).is_err());
    assert_eq!(RoundingIncrement::try_from_integer(30).unwrap().get(), 30);
    assert_eq!(
        RoundingIncrement::try_from_integer(30)
            .unwrap()
            .as_extended_increment(),
        30
    );
}

#[test]
fn increment_validates_against_a_dividend() {
    let six = RoundingIncrement::try_new(6).unwrap();
    assert!(six.validate(24, false).is_ok());
    assert!(six.validate(6, true).is_ok());
    assert_eq!(six.validate(6, false).unwrap_err().kind(), ErrorKind::Range);
    assert!(six.validate(5, true).is_err());
    assert!(six.validate(20, false).is_err());
    assert!(six.validate(0, true).is_err());
    assert!(six.validate(0, false).is_err());
}

#[test]
fn settings_resolve_to_defaults() {
    let (sign, resolved) = ResolvedRoundingOptions::from_diff_settings(
        DifferenceSettings::default(),
        DifferenceOperation::Until,
        TemporalUnit::Hour,
        TemporalUnit::Nanosecond,
    )
    .unwrap();
    assert_eq!(sign, Sign::Positive);
    assert_eq!(sign.as_i8(), 1);
    assert_eq!(resolved.largest_unit, TemporalUnit::Hour);
    assert_eq!(resolved.smallest_unit, TemporalUnit::Nanosecond);
    assert_eq!(resolved.increment.get(), 1);
    assert_eq!(resolved.rounding_mode, TemporalRoundingMode::HalfExpand);
}

#[test]
fn settings_resolve_sign_and_largest_unit() {
    let settings = DifferenceSettings {
        largest_unit: Some(TemporalUnit::Auto),
        smallest_unit: Some(TemporalUnit::Minute),
        rounding_mode: Some(TemporalRoundingMode::Floor),
        increment: Some(RoundingIncrement::try_new(30).unwrap()),
    };
    let (sign, resolved) = ResolvedRoundingOptions::from_diff_settings(
        settings,
        DifferenceOperation::Since,
        TemporalUnit::Second,
        TemporalUnit::Nanosecond,
    )
    .unwrap();
    assert_eq!(sign, Sign::Negative);
    assert_eq!(sign.as_i8(), -1);
    assert_eq!(resolved.largest_unit, TemporalUnit::Minute);
    assert_eq!(resolved.smallest_unit, TemporalUnit::Minute);
    assert_eq!(resolved.increment.get(), 30);
    assert_eq!(resolved.rounding_mode, TemporalRoundingMode::Floor);
    assert_eq!(DifferenceOperation::Since.sign(), Sign::Negative);
    assert_eq!(DifferenceOperation::Until.sign(), Sign::Positive);
}

#[test]
fn settings_fail_with_range_errors() {
    let resolve = |settings| {
        ResolvedRoundingOptions::from_diff_settings(
            settings,
            DifferenceOperation::Until,
            TemporalUnit::Hour,
            TemporalUnit::Nanosecond,
        )
    };
    let finer = DifferenceSettings {
        largest_unit: Some(TemporalUnit::Millisecond),
        smallest_unit: Some(TemporalUnit::Second),
        ..DifferenceSettings::default()
    };
    assert_eq!(resolve(finer).unwrap_err(), TemporalError::range());
    let auto_smallest = DifferenceSettings {
        smallest_unit: Some(TemporalUnit::Auto),
        ..DifferenceSettings::default()
    };
    assert!(resolve(auto_smallest).is_err());
    let too_large = DifferenceSettings {
        smallest_unit: Some(TemporalUnit::Hour),
        increment: Some(RoundingIncrement::try_new(24).unwrap()),
        ..DifferenceSettings::default()
    };
    assert!(resolve(too_large).is_err());
    let days = DifferenceSettings {
        smallest_unit: Some(TemporalUnit::Day),
        increment: Some(RoundingIncrement::try_new(7).unwrap()),
        ..DifferenceSettings::default()
    };
    let (_, resolved) = resolve(days).unwrap();
    assert_eq!(resolved.largest_unit, TemporalUnit::Day);
}

#[test]
fn precision_selects_minute_then_digits_then_auto() {
    let minute = Precision {
        is_minute: true,
        precision: Some(3),
    };
    assert_eq!(minute.kind(), PrecisionKind::Minute);
    let digits = Precision {
        is_minute: false,
        precision: Some(3),
    };
    assert_eq!(digits.kind(), PrecisionKind::Digit(3));
    let auto = Precision {
        is_minute: false,
        precision: None,
    };
    assert_eq!(auto.kind(), PrecisionKind::Auto);
    let options = ToStringRoundingOptions {
        precision: digits,
        smallest_unit: Some(TemporalUnit::Second),
        rounding_mode: None,
    };
    let resolved = options.resolve();
    assert_eq!(resolved.precision, PrecisionKind::Digit(3));
    assert_eq!(resolved.smallest_unit, Some(TemporalUnit::Second));
    assert_eq!(resolved.rounding_mode, None);
}

#[test]
fn errors_name_their_kind() {
    assert_eq!(TemporalError::range().name(), "RangeError");
    assert_eq!(TemporalError::type_error().name(), "TypeError");
    assert!(TemporalError::range().is_range());
    assert!(!TemporalError::range().is_type());
    assert_eq!(Sign::from_i128(-3), Sign::Negative);
    assert_eq!(Sign::from_i128(0), Sign::Zero);
    assert_eq!(Sign::from_i128(0).as_i8(), 0);
}

#[test]
fn flat_records_convert_with_from() {
    use_from(true, Some(9), PrecisionKind::Minute);
    use_from(false, Some(9), PrecisionKind::Digit(9));
    use_from(false, None, PrecisionKind::Auto);
}

fn use_from(is_minute: bool, precision: Option<u8>, expected: PrecisionKind) {
    let record = Precision {
        is_minute,
        precision,
    };
    assert_eq!(PrecisionKind::from(record), expected);
    let options = ToStringRoundingOptions {
        precision: record,
        smallest_unit: None,
        rounding_mode: Some(TemporalRoundingMode::Trunc),
    };
    let resolved = temporal_core::options::ResolvedToStringRoundingOptions::from(options);
    assert_eq!(resolved.precision, expected);
    assert_eq!(resolved.smallest_unit, None);
    assert_eq!(resolved.rounding_mode, Some(TemporalRoundingMode::Trunc));
}
