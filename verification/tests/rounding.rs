use temporal_core::error::ErrorKind;
use temporal_core::math::{div_floor, rem_floor};
use temporal_core::options::TemporalRoundingMode;
use temporal_core::options::TemporalUnsignedRoundingMode::{
    HalfEven, HalfInfinity, HalfZero, Infinity, Zero,
};
use temporal_core::rounding::{apply_unsigned_rounding_mode, IncrementRounder};

const MODES: [TemporalRoundingMode; 9] = [
    TemporalRoundingMode::Ceil,
    TemporalRoundingMode::Floor,
    TemporalRoundingMode::Expand,
    TemporalRoundingMode::Trunc,
    TemporalRoundingMode::HalfCeil,
    TemporalRoundingMode::HalfFloor,
    TemporalRoundingMode::HalfExpand,
    TemporalRoundingMode::HalfTrunc,
    TemporalRoundingMode::HalfEven,
];

fn round_all(number: i128, increment: i128) -> [i128; 9] {
    let rounder = IncrementRounder::from_potentially_negative_parts(number, increment).unwrap();
    MODES.map(|mode| rounder.round(mode))
}

#[test]
fn round_below_half() {
    assert_eq!(round_all(12, 10), [20, 10, 20, 10, 10, 10, 10, 10, 10]);
    assert_eq!(round_all(-12, 10), [-10, -20, -20, -10, -10, -10, -10, -10, -10]);
}

#[test]
fn round_above_half() {
    assert_eq!(round_all(17, 10), [20, 10, 20, 10, 20, 20, 20, 20, 20]);
    assert_eq!(round_all(-17, 10), [-10, -20, -20, -10, -20, -20, -20, -20, -20]);
}

#[test]
fn round_ties_follow_the_mode() {
    assert_eq!(round_all(15, 10), [20, 10, 20, 10, 20, 10, 20, 10, 20]);
    assert_eq!(round_all(25, 10), [30, 20, 30, 20, 30, 20, 30, 20, 20]);
    assert_eq!(round_all(-15, 10), [-10, -20, -20, -10, -10, -20, -20, -10, -20]);
    assert_eq!(round_all(-25, 10), [-20, -30, -30, -20, -20, -30, -30, -20, -20]);
}

#[test]
fn round_odd_increment_has_no_tie() {
    assert_eq!(round_all(12, 25), [25, 0, 25, 0, 0, 0, 0, 0, 0]);
    assert_eq!(round_all(13, 25), [25, 0, 25, 0, 25, 25, 25, 25, 25]);
}

#[test]
fn round_keeps_multiples() {
    assert_eq!(round_all(40, 10), [40; 9]);
    assert_eq!(round_all(-40, 10), [-40; 9]);
    assert_eq!(round_all(0, 7), [0; 9]);
    assert_eq!(round_all(123, 1), [123; 9]);
}

#[test]
fn round_is_idempotent_for_every_mode() {
    for number in -45i128..=45 {
        for increment in [1i128, 2, 3, 10, 15] {
            let rounder =
                IncrementRounder::from_potentially_negative_parts(number, increment).unwrap();
            for mode in MODES {
                let once = rounder.round(mode);
                let again = IncrementRounder::from_potentially_negative_parts(once, increment)
                    .unwrap()
                    .round(mode);
                assert_eq!(once, again);
                assert_eq!(once % increment, 0);
                assert!((once - number).abs() < increment);
                let mirrored =
                    IncrementRounder::from_potentially_negative_parts(-number, increment)
                        .unwrap()
                        .round(mode.negate());
                assert_eq!(mirrored, -once);
            }
        }
    }
}

#[test]
fn round_as_positive_ignores_the_sign() {
    let rounder = IncrementRounder::from_potentially_negative_parts(-15, 10).unwrap();
    let rounded = MODES.map(|mode| rounder.round_as_positive(mode));
    assert_eq!(rounded, [-10, -20, -10, -20, -10, -20, -10, -20, -20]);
    let rounder = IncrementRounder::from_positive_parts(15, 10).unwrap();
    let rounded = MODES.map(|mode| rounder.round_as_positive(mode));
    assert_eq!(rounded, [20, 10, 20, 10, 20, 10, 20, 10, 20]);
    assert_eq!(MODES.map(|mode| rounder.round(mode)), rounded);
}

#[test]
fn rounder_rejects_what_it_cannot_round() {
    assert_eq!(
        IncrementRounder::from_potentially_negative_parts(5, 0)
            .unwrap_err()
            .kind(),
        ErrorKind::Range
    );
    assert!(IncrementRounder::from_potentially_negative_parts(5, -1).is_err());
    assert!(IncrementRounder::from_potentially_negative_parts(i128::MAX, 1).is_err());
    assert!(IncrementRounder::from_potentially_negative_parts(i128::MIN, 1).is_err());
    assert!(IncrementRounder::from_potentially_negative_parts(i128::MAX - 1, 1).is_ok());
    assert!(IncrementRounder::from_positive_parts(i128::MAX - 1, 2).is_err());
    assert!(IncrementRounder::from_positive_parts(0, 0).is_err());
}

#[test]
fn unsigned_modes_pick_a_quotient() {
    assert_eq!(apply_unsigned_rounding_mode(15, 10, Infinity), 2);
    assert_eq!(apply_unsigned_rounding_mode(15, 10, Zero), 1);
    assert_eq!(apply_unsigned_rounding_mode(15, 10, HalfInfinity), 2);
    assert_eq!(apply_unsigned_rounding_mode(15, 10, HalfZero), 1);
    assert_eq!(apply_unsigned_rounding_mode(15, 10, HalfEven), 2);
    assert_eq!(apply_unsigned_rounding_mode(25, 10, HalfEven), 2);
    assert_eq!(apply_unsigned_rounding_mode(20, 10, Infinity), 2);
    assert_eq!(apply_unsigned_rounding_mode(-15, 10, Zero), -2);
    assert_eq!(apply_unsigned_rounding_mode(-15, 10, HalfEven), -2);
}

#[test]
fn signed_modes_reduce_to_unsigned_ones() {
    let positive = MODES.map(|mode| mode.get_unsigned_round_mode(true));
    assert_eq!(
        positive,
        [Infinity, Zero, Infinity, Zero, HalfInfinity, HalfZero, HalfInfinity, HalfZero, HalfEven]
    );
    let negative = MODES.map(|mode| mode.get_unsigned_round_mode(false));
    assert_eq!(
        negative,
        [Zero, Infinity, Infinity, Zero, HalfZero, HalfInfinity, HalfInfinity, HalfZero, HalfEven]
    );
    assert_eq!(TemporalRoundingMode::default(), TemporalRoundingMode::HalfExpand);
}

#[test]
fn floor_division_rounds_down() {
    assert_eq!(div_floor(-7, 2), -4);
    assert_eq!(rem_floor(-7, 2), 1);
    assert_eq!(div_floor(7, 2), 3);
    assert_eq!(rem_floor(7, 2), 1);
    assert_eq!(div_floor(i128::MIN, 1), i128::MIN);
    assert_eq!(rem_floor(i128::MIN, 3), 1);
}
