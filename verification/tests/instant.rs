use num_bigint::BigInt;
use num_traits::ToPrimitive;
use temporal_core::duration::Duration;
use temporal_core::error::ErrorKind;
use temporal_core::instant::{is_valid_epoch_nanos, Instant};
use temporal_core::options::{
    DifferenceSettings, RoundingIncrement, TemporalRoundingMode, TemporalUnit,
};
use temporal_core::{NS_MAX_INSTANT, NS_MIN_INSTANT, NS_PER_DAY};

#[test]
fn max_and_minimum_instant_bounds() {
    let max = BigInt::from(NS_MAX_INSTANT);
    let min = BigInt::from(NS_MIN_INSTANT);
    let max_instant = Instant::new(max.clone()).unwrap();
    let min_instant = Instant::new(min.clone()).unwrap();

    assert_eq!(max_instant.epoch_nanoseconds() as f64, max.to_f64().unwrap());
    assert_eq!(min_instant.epoch_nanoseconds() as f64, min.to_f64().unwrap());

    let max_plus_one = BigInt::from(NS_MAX_INSTANT + 1);
    let min_minus_one = BigInt::from(NS_MIN_INSTANT - 1);

    assert!(Instant::new(max_plus_one).is_err());
    assert!(Instant::new(min_minus_one).is_err());
}

#[test]
fn instant_bounds_are_a_hundred_million_days() {
    assert_eq!(NS_MAX_INSTANT, NS_PER_DAY as i128 * 100_000_000);
    assert_eq!(NS_MIN_INSTANT, -NS_MAX_INSTANT);
    assert!(is_valid_epoch_nanos(NS_MAX_INSTANT));
    assert!(!is_valid_epoch_nanos(NS_MAX_INSTANT + 1));
    assert!(is_valid_epoch_nanos(NS_MIN_INSTANT));
    assert!(!is_valid_epoch_nanos(NS_MIN_INSTANT - 1));
    assert_eq!(
        Instant::try_new(NS_MIN_INSTANT - 1).unwrap_err().kind(),
        ErrorKind::Range
    );
}

#[test]
fn new_keeps_the_count() {
    let instant = Instant::new(BigInt::from(-1_234_567_890_123i64)).unwrap();
    assert_eq!(instant.epoch_nanoseconds(), -1_234_567_890_123);
    assert_eq!(Instant::new(BigInt::from(instant.epoch_nanoseconds())).unwrap(), instant);
    let huge = BigInt::from(i128::MAX) * BigInt::from(4);
    assert_eq!(Instant::new(huge).unwrap_err().kind(), ErrorKind::Range);
    assert!(Instant::from_narrowed(None).is_err());
    assert_eq!(Instant::from_narrowed(Some(7)).unwrap().epoch_nanoseconds(), 7);
}

#[test]
fn epoch_counts_round_down() {
    let instant = Instant::try_new(-1_500_000_001).unwrap();
    assert_eq!(instant.epoch_seconds(), -2);
    assert_eq!(instant.epoch_milliseconds(), -1_501);
    assert_eq!(instant.epoch_microseconds(), -1_500_001);
    assert_eq!(instant.epoch_nanoseconds(), -1_500_000_001);
    let instant = Instant::try_new(1_500_000_001).unwrap();
    assert_eq!(instant.epoch_seconds(), 1);
    assert_eq!(instant.epoch_milliseconds(), 1_500);
    assert_eq!(instant.epoch_microseconds(), 1_500_000);
}

#[test]
fn instant_add_then_subtract_returns_the_instant() {
    let instant = Instant::try_new(-5).unwrap();
    let duration = Duration::new(0, 0, 0, 0, 1, 2, 3, 4, 5, 6).unwrap();
    let later = instant.add(duration).unwrap();
    assert_eq!(later.epoch_nanoseconds(), 3_723_004_005_001);
    assert_eq!(later.subtract(duration).unwrap(), instant);
    assert_eq!(
        later.subtract_time_duration(duration.time()).unwrap(),
        instant
    );
    assert_eq!(instant.add_time_duration(duration.time()).unwrap(), later);
}

#[test]
fn instant_add_fails_out_of_range_or_with_a_date() {
    let last = Instant::try_new(NS_MAX_INSTANT).unwrap();
    let one = Duration::new(0, 0, 0, 0, 0, 0, 0, 0, 0, 1).unwrap();
    assert_eq!(last.add(one).unwrap_err().kind(), ErrorKind::Range);
    assert_eq!(
        last.subtract(one).unwrap().epoch_nanoseconds(),
        NS_MAX_INSTANT - 1
    );
    let first = Instant::try_new(NS_MIN_INSTANT).unwrap();
    assert!(first.subtract(one).is_err());
    let dated = Duration::new(0, 0, 1, 0, 0, 0, 0, 0, 0, 0).unwrap();
    assert_eq!(first.add(dated).unwrap_err().kind(), ErrorKind::Range);
    assert!(first.subtract(dated).is_err());
}

#[test]
fn instant_until_balances_to_seconds_by_default() {
    let one = Instant::try_new(0).unwrap();
    let two = Instant::try_new(3_723_004_005_006).unwrap();
    let until = one.until(&two, DifferenceSettings::default()).unwrap();
    assert_eq!(
        (
            until.hours(),
            until.minutes(),
            until.seconds(),
            until.milliseconds(),
            until.microseconds(),
            until.nanoseconds()
        ),
        (0, 0, 3723, 4, 5, 6)
    );
    let since = one.since(&two, DifferenceSettings::default()).unwrap();
    assert_eq!(since, until.negated());
    assert_eq!(since.seconds(), -3723);
    assert_eq!(since.nanoseconds(), -6);
}

#[test]
fn instant_until_spans_the_whole_range() {
    let first = Instant::try_new(NS_MIN_INSTANT).unwrap();
    let last = Instant::try_new(NS_MAX_INSTANT).unwrap();
    let nanos = DifferenceSettings {
        largest_unit: Some(TemporalUnit::Nanosecond),
        ..DifferenceSettings::default()
    };
    let until = first.until(&last, nanos).unwrap();
    assert_eq!(until.nanoseconds(), 2 * NS_MAX_INSTANT);
    assert_eq!(until.seconds(), 0);
    let hours = DifferenceSettings {
        largest_unit: Some(TemporalUnit::Hour),
        smallest_unit: Some(TemporalUnit::Hour),
        ..DifferenceSettings::default()
    };
    assert_eq!(last.until(&first, hours).unwrap().hours(), -4_800_000_000);
}

#[test]
fn instant_difference_rounds_and_rejects_days() {
    let one = Instant::try_new(0).unwrap();
    let two = Instant::try_new(-1_500_000_000).unwrap();
    let settings = DifferenceSettings {
        smallest_unit: Some(TemporalUnit::Second),
        rounding_mode: Some(TemporalRoundingMode::Floor),
        ..DifferenceSettings::default()
    };
    assert_eq!(one.until(&two, settings).unwrap().seconds(), -2);
    assert_eq!(one.since(&two, settings).unwrap().seconds(), 2);
    let days = DifferenceSettings {
        smallest_unit: Some(TemporalUnit::Day),
        ..DifferenceSettings::default()
    };
    assert_eq!(one.until(&two, days).unwrap_err().kind(), ErrorKind::Range);
    let weeks = DifferenceSettings {
        largest_unit: Some(TemporalUnit::Week),
        ..DifferenceSettings::default()
    };
    assert!(one.since(&two, weeks).is_err());
}

#[test]
fn instant_round_uses_the_day_as_maximum() {
    let instant = Instant::try_new(1_500_000_000).unwrap();
    assert_eq!(
        instant
            .round(None, TemporalUnit::Second, None)
            .unwrap()
            .epoch_nanoseconds(),
        2_000_000_000
    );
    assert_eq!(
        instant
            .round(Some(24), TemporalUnit::Hour, None)
            .unwrap()
            .epoch_nanoseconds(),
        0
    );
    assert_eq!(
        instant
            .round(Some(1440), TemporalUnit::Minute, Some(TemporalRoundingMode::Ceil))
            .unwrap()
            .epoch_nanoseconds(),
        NS_PER_DAY as i128
    );
    assert_eq!(
        instant
            .round(Some(7), TemporalUnit::Hour, None)
            .unwrap_err()
            .kind(),
        ErrorKind::Range
    );
    assert!(instant.round(Some(48), TemporalUnit::Hour, None).is_err());
    assert!(instant.round(Some(0), TemporalUnit::Hour, None).is_err());
    assert!(instant.round(None, TemporalUnit::Day, None).is_err());
    assert!(instant
        .round(Some(2_000_000_000), TemporalUnit::Nanosecond, None)
        .is_err());
}

#[test]
fn instant_round_before_the_epoch_rounds_as_positive() {
    let instant = Instant::try_new(-1_500_000_000).unwrap();
    let round = |mode| {
        instant
            .round(None, TemporalUnit::Second, Some(mode))
            .unwrap()
            .epoch_nanoseconds()
    };
    assert_eq!(round(TemporalRoundingMode::Trunc), -2_000_000_000);
    assert_eq!(round(TemporalRoundingMode::Floor), -2_000_000_000);
    assert_eq!(round(TemporalRoundingMode::Expand), -1_000_000_000);
    assert_eq!(round(TemporalRoundingMode::Ceil), -1_000_000_000);
    assert_eq!(round(TemporalRoundingMode::HalfExpand), -1_000_000_000);
    assert_eq!(round(TemporalRoundingMode::HalfTrunc), -2_000_000_000);
    assert_eq!(round(TemporalRoundingMode::HalfEven), -2_000_000_000);
}

#[test]
fn instant_round_stays_in_range_and_is_idempotent() {
    let last = Instant::try_new(NS_MAX_INSTANT - 1).unwrap();
    let rounded = last
        .round(Some(12), TemporalUnit::Hour, Some(TemporalRoundingMode::Ceil))
        .unwrap();
    assert_eq!(rounded.epoch_nanoseconds(), NS_MAX_INSTANT);
    let again = rounded
        .round(Some(12), TemporalUnit::Hour, Some(TemporalRoundingMode::Ceil))
        .unwrap();
    assert_eq!(again, rounded);
    let first = Instant::try_new(NS_MIN_INSTANT + 1).unwrap();
    assert_eq!(
        first
            .round(None, TemporalUnit::Hour, Some(TemporalRoundingMode::Floor))
            .unwrap()
            .epoch_nanoseconds(),
        NS_MIN_INSTANT
    );
    assert_eq!(
        first
            .round_instant(
                RoundingIncrement::try_new(5).unwrap(),
                TemporalUnit::Microsecond,
                TemporalRoundingMode::HalfExpand
            )
            .unwrap(),
        NS_MIN_INSTANT
    );
    assert!(first
        .round_instant(
            RoundingIncrement::one(),
            TemporalUnit::Month,
            TemporalRoundingMode::HalfExpand
        )
        .is_err());
}

#[test]
fn epoch_difference_splits_with_remainders_that_are_not_negative() {
    use_split(3_723_004_005_006, (3_723, 4, 5, 6));
    use_split(-1, (-1, 999, 999, 999));
    use_split(-1_000_000_001, (-2, 999, 999, 999));
    use_split(-2_000_000_000, (-2, 0, 0, 0));
    use_split(0, (0, 0, 0, 0));
    use_split(
        2 * NS_MAX_INSTANT,
        (17_280_000_000_000, 0, 0, 0),
    );
}

fn use_split(difference: i128, parts: (i128, i128, i128, i128)) {
    let split = temporal_core::instant::split_epoch_difference(difference);
    assert_eq!(split, parts);
    assert_eq!(
        split.0 * 1_000_000_000 + split.1 * 1_000_000 + split.2 * 1_000 + split.3,
        difference
    );
}

#[test]
fn instants_are_ordered_by_their_count() {
    let early = Instant::try_new(-1).unwrap();
    let late = Instant::try_new(1).unwrap();
    assert!(early < late);
    assert_eq!(early.max(late), late);
}
