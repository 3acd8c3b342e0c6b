//! Rounding of an exact integer to a multiple of an increment.
//!
//! What a rounding returns is stated once, directly, by `round_to_increment`.
//! The implementation works on the magnitude: each of the nine modes names,
//! for the sign of the value, one of five rules on magnitudes; the rule picks
//! a quotient, and the sign is put back. `lemma_sign_magnitude_rounding`
//! shows that the two agree.

use vstd::prelude::*;

use crate::error::{range_error, TemporalError};
use crate::math::{abs, div_floor, lemma_div_bound, lemma_div_mod_split, lemma_div_mod_unique, rem_floor};
use crate::options::{TemporalRoundingMode, TemporalUnsignedRoundingMode};

verus! {

/// The largest multiple of `increment` that is not above `x`.
pub open spec fn multiple_below(x: int, increment: int) -> int {
    (x / increment) * increment
}

/// Whether `x` is a multiple of `increment`.
pub open spec fn is_multiple(x: int, increment: int) -> bool {
    x % increment == 0
}

/// `x` rounded to a multiple of the positive `increment`.
///
/// A multiple is returned unchanged. Any other `x` lies strictly between the
/// multiples `lower` and `upper = lower + increment`: `Ceil` and `Floor` pick
/// by direction, `Expand` and `Trunc` by the direction away from or toward
/// zero, and the half modes pick the nearer of the two, a tie going the way of
/// the mode's name (`HalfEven`: to the even multiple of the increment).
pub open spec fn round_to_increment(x: int, increment: int, mode: TemporalRoundingMode) -> int {
    let lower = multiple_below(x, increment);
    let upper = lower + increment;
    let twice = 2 * (x - lower);
    let lower_is_even = (x / increment) % 2 == 0;
    if is_multiple(x, increment) {
        x
    } else {
        match mode {
            TemporalRoundingMode::Ceil => upper,
            TemporalRoundingMode::Floor => lower,
            TemporalRoundingMode::Expand => if x >= 0 {
                upper
            } else {
                lower
            },
            TemporalRoundingMode::Trunc => if x >= 0 {
                lower
            } else {
                upper
            },
            TemporalRoundingMode::HalfCeil => if twice >= increment {
                upper
            } else {
                lower
            },
            TemporalRoundingMode::HalfFloor => if twice > increment {
                upper
            } else {
                lower
            },
            TemporalRoundingMode::HalfExpand => if twice > increment || (twice == increment && x
                >= 0) {
                upper
            } else {
                lower
            },
            TemporalRoundingMode::HalfTrunc => if twice > increment || (twice == increment && x
                < 0) {
                upper
            } else {
                lower
            },
            TemporalRoundingMode::HalfEven => if twice > increment || (twice == increment
                && !lower_is_even) {
                upper
            } else {
                lower
            },
        }
    }
}

/// `x` rounded to a multiple of the positive `increment` as a positive number
/// would be, whatever its sign: `Expand` goes up and `Trunc` goes down, and
/// likewise for the ties of `HalfExpand` and `HalfTrunc`.
pub open spec fn round_as_if_positive(x: int, increment: int, mode: TemporalRoundingMode) -> int {
    rounded_quotient(x, increment, mode.unsigned_mode(true)) * increment
}

/// The quotient that a rule on magnitudes picks for `x / increment`: the floor
/// quotient or the one above it.
pub open spec fn rounded_quotient(
    x: int,
    increment: int,
    mode: TemporalUnsignedRoundingMode,
) -> int {
    let quotient = x / increment;
    let remainder = x % increment;
    if remainder == 0 {
        quotient
    } else {
        match mode {
            TemporalUnsignedRoundingMode::Infinity => quotient + 1,
            TemporalUnsignedRoundingMode::Zero => quotient,
            TemporalUnsignedRoundingMode::HalfInfinity => if 2 * remainder >= increment {
                quotient + 1
            } else {
                quotient
            },
            TemporalUnsignedRoundingMode::HalfZero => if 2 * remainder > increment {
                quotient + 1
            } else {
                quotient
            },
            TemporalUnsignedRoundingMode::HalfEven => if 2 * remainder > increment || (2
                * remainder == increment && quotient % 2 != 0) {
                quotient + 1
            } else {
                quotient
            },
        }
    }
}

/// `x` rounded through its magnitude: the rule that the mode names for the
/// sign of `x` picks a quotient for `|x|`, and the sign is put back.
pub open spec fn round_by_magnitude(x: int, increment: int, mode: TemporalRoundingMode) -> int {
    if x >= 0 {
        rounded_quotient(x, increment, mode.unsigned_mode(true)) * increment
    } else {
        -(rounded_quotient(-x, increment, mode.unsigned_mode(false)) * increment)
    }
}

/// A negative number and its magnitude share their remainders: where the
/// magnitude is a multiple, so is the number; elsewhere the floor quotient of
/// the number lies one below the negated quotient of the magnitude.
pub proof fn lemma_negated_div_mod(m: int, d: int)
    requires
        d > 0,
    ensures
        m % d == 0 ==> (-m) / d == -(m / d) && (-m) % d == 0,
        m % d != 0 ==> (-m) / d == -(m / d) - 1 && (-m) % d == d - m % d,
{
    lemma_div_mod_split(m, d);
    let q = m / d;
    let r = m % d;
    if r == 0 {
        assert(-m == (-q) * d + 0) by (nonlinear_arith)
            requires
                m == q * d + r,
                r == 0,
        ;
        lemma_div_mod_unique(-m, d, -q, 0);
    } else {
        assert(-m == (-q - 1) * d + (d - r)) by (nonlinear_arith)
            requires
                m == q * d + r,
        ;
        lemma_div_mod_unique(-m, d, -q - 1, d - r);
    }
}

/// Rounding through the magnitude returns what `round_to_increment` states.
pub proof fn lemma_sign_magnitude_rounding(x: int, increment: int, mode: TemporalRoundingMode)
    requires
        increment > 0,
    ensures
        round_by_magnitude(x, increment, mode) == round_to_increment(x, increment, mode),
{
    lemma_div_mod_split(x, increment);
    let q = x / increment;
    assert((q + 1) * increment == q * increment + increment) by (nonlinear_arith);
    if x < 0 {
        let m = -x;
        lemma_negated_div_mod(m, increment);
        lemma_div_mod_split(m, increment);
        let qm = m / increment;
        let rm = m % increment;
        assert((qm + 1) * increment == qm * increment + increment) by (nonlinear_arith);
        if rm == 0 {
            assert(q == -qm);
            assert(q * increment == -(qm * increment)) by (nonlinear_arith)
                requires
                    q == -qm,
            ;
        } else {
            assert(q == -qm - 1);
            assert(q * increment == -(qm * increment) - increment) by (nonlinear_arith)
                requires
                    q == -qm - 1,
            ;
        }
    }
}

/// What comes out of a rounding is a multiple of the increment, and lies
/// less than one increment away from what went in.
pub proof fn lemma_round_is_near_multiple(x: int, increment: int, mode: TemporalRoundingMode)
    requires
        increment > 0,
    ensures
        is_multiple(round_to_increment(x, increment, mode), increment),
        x - increment < round_to_increment(x, increment, mode) < x + increment,
        is_multiple(round_as_if_positive(x, increment, mode), increment),
        x - increment < round_as_if_positive(x, increment, mode) < x + increment,
{
    lemma_div_mod_split(x, increment);
    let q = x / increment;
    assert((q + 1) * increment == q * increment + increment) by (nonlinear_arith);
    lemma_div_mod_unique(q * increment, increment, q, 0);
    lemma_div_mod_unique((q + 1) * increment, increment, q + 1, 0);
}

/// Rounding is idempotent: a value that a rounding returned is returned
/// unchanged by a second rounding with the same increment and mode.
pub proof fn lemma_round_idempotent(x: int, increment: int, mode: TemporalRoundingMode)
    requires
        increment > 0,
    ensures
        round_to_increment(round_to_increment(x, increment, mode), increment, mode)
            == round_to_increment(x, increment, mode),
        round_as_if_positive(round_as_if_positive(x, increment, mode), increment, mode)
            == round_as_if_positive(x, increment, mode),
{
    lemma_round_is_near_multiple(x, increment, mode);
    let once = round_as_if_positive(x, increment, mode);
    lemma_div_mod_split(once, increment);
}

/// Rounding the negation of a value with the mirrored mode returns the
/// negation of the value rounded.
pub proof fn lemma_round_negation(x: int, increment: int, mode: TemporalRoundingMode)
    requires
        increment > 0,
    ensures
        round_to_increment(-x, increment, mode.negated()) == -round_to_increment(
            x,
            increment,
            mode,
        ),
{
    lemma_sign_magnitude_rounding(x, increment, mode);
    lemma_sign_magnitude_rounding(-x, increment, mode.negated());
    if x == 0 {
        lemma_div_mod_unique(0, increment, 0, 0);
        assert(0 * increment == 0) by (nonlinear_arith);
    }
}

/// Picks a quotient for `dividend / divisor` by a rule on magnitudes.
pub fn apply_unsigned_rounding_mode(
    dividend: i128,
    divisor: i128,
    unsigned_rounding_mode: TemporalUnsignedRoundingMode,
) -> (rounded: i128)
    requires
        divisor > 0,
        dividend < i128::MAX,
    ensures
        rounded == rounded_quotient(dividend as int, divisor as int, unsigned_rounding_mode),
{
    proof {
        lemma_div_bound(dividend as int, divisor as int);
        lemma_div_mod_split(dividend as int, divisor as int);
    }
    let quotient: i128 = div_floor(dividend, divisor);
    let remainder: i128 = rem_floor(dividend, divisor);
    if remainder == 0 {
        return quotient;
    }
    // Here the dividend lies strictly between two multiples of the divisor.
    let above: i128 = quotient + 1;
    let rest: i128 = divisor - remainder;
    match unsigned_rounding_mode {
        TemporalUnsignedRoundingMode::Infinity => above,
        TemporalUnsignedRoundingMode::Zero => quotient,
        TemporalUnsignedRoundingMode::HalfInfinity => if remainder >= rest {
            above
        } else {
            quotient
        },
        TemporalUnsignedRoundingMode::HalfZero => if remainder > rest {
            above
        } else {
            quotient
        },
        TemporalUnsignedRoundingMode::HalfEven => if remainder > rest || (remainder == rest
            && rem_floor(quotient, 2) != 0) {
            above
        } else {
            quotient
        },
    }
}

/// A number to round and the increment to round it by.
#[derive(Debug, Clone, Copy, PartialEq, Eq)]
pub struct IncrementRounder {
    sign: bool,
    dividend: i128,
    divisor: i128,
}

/// A rounder as plain values.
pub struct IncrementRounderView {
    pub number: int,
    pub increment: int,
}

impl View for IncrementRounder {
    type V = IncrementRounderView;

    closed spec fn view(&self) -> IncrementRounderView {
        IncrementRounderView { number: self.dividend as int, increment: self.divisor as int }
    }
}

/// Whether a number can be rounded by an increment within 128 bits: the
/// increment is positive, and the number is further than one increment away
/// from both ends of the range.
pub open spec fn roundable(number: int, increment: int) -> bool {
    &&& increment > 0
    &&& abs(number) + increment <= i128::MAX
}

impl IncrementRounder {
    /// The number is roundable by the increment, and the sign is that of the
    /// number.
    #[verifier::type_invariant]
    pub closed spec fn well_formed(self) -> bool {
        &&& roundable(self.dividend as int, self.divisor as int)
        &&& self.sign == (self.dividend >= 0)
    }

    /// Makes a rounder for a number of any sign. Fails with a range error
    /// exactly when the number is not roundable by the increment.
    pub fn from_potentially_negative_parts(number: i128, increment: i128) -> (result: Result<
        IncrementRounder,
        TemporalError,
    >)
        ensures
            result is Ok <==> roundable(number as int, increment as int),
            result matches Ok(rounder) ==> rounder@ == (IncrementRounderView {
                number: number as int,
                increment: increment as int,
            }),
            result matches Err(error) ==> error == range_error(),
    {
        if increment <= 0 {
            return Err(TemporalError::range());
        }
        let room: i128 = i128::MAX - increment;
        if number > room || number < -room {
            return Err(TemporalError::range());
        }
        Ok(IncrementRounder { sign: number >= 0, dividend: number, divisor: increment })
    }

    /// Makes a rounder for a number that is not negative. Fails with a range
    /// error exactly when the number is not roundable by the increment.
    pub fn from_positive_parts(number: i128, increment: i128) -> (result: Result<
        IncrementRounder,
        TemporalError,
    >)
        requires
            number >= 0,
        ensures
            result is Ok <==> roundable(number as int, increment as int),
            result matches Ok(rounder) ==> rounder@ == (IncrementRounderView {
                number: number as int,
                increment: increment as int,
            }),
            result matches Err(error) ==> error == range_error(),
    {
        if increment <= 0 {
            return Err(TemporalError::range());
        }
        if number > i128::MAX - increment {
            return Err(TemporalError::range());
        }
        Ok(IncrementRounder { sign: true, dividend: number, divisor: increment })
    }

    /// Rounds the number to a multiple of the increment.
    pub fn round(&self, mode: TemporalRoundingMode) -> (rounded: i128)
        ensures
            rounded == round_to_increment(self@.number, self@.increment, mode),
    {
        proof {
            use_type_invariant(self);
            lemma_sign_magnitude_rounding(self.dividend as int, self.divisor as int, mode);
        }
        let unsigned_rounding_mode = mode.get_unsigned_round_mode(self.sign);
        let magnitude: i128 = if self.sign {
            self.dividend
        } else {
            -self.dividend
        };
        let quotient: i128 = apply_unsigned_rounding_mode(
            magnitude,
            self.divisor,
            unsigned_rounding_mode,
        );
        proof {
            lemma_quotient_fits(magnitude as int, self.divisor as int, unsigned_rounding_mode);
        }
        let rounded: i128 = quotient * self.divisor;
        if self.sign {
            rounded
        } else {
            -rounded
        }
    }

    /// Rounds the number to a multiple of the increment as a positive number
    /// would be rounded, whatever its sign.
    pub fn round_as_positive(&self, mode: TemporalRoundingMode) -> (rounded: i128)
        ensures
            rounded == round_as_if_positive(self@.number, self@.increment, mode),
    {
        proof {
            use_type_invariant(self);
        }
        let unsigned_rounding_mode = mode.get_unsigned_round_mode(true);
        let quotient: i128 = apply_unsigned_rounding_mode(
            self.dividend,
            self.divisor,
            unsigned_rounding_mode,
        );
        proof {
            lemma_quotient_fits(self.dividend as int, self.divisor as int, unsigned_rounding_mode);
        }
        quotient * self.divisor
    }
}

/// The product of a picked quotient and the increment lies less than one
/// increment away from the number.
pub proof fn lemma_quotient_fits(x: int, increment: int, mode: TemporalUnsignedRoundingMode)
    requires
        increment > 0,
    ensures
        x - increment < rounded_quotient(x, increment, mode) * increment < x + increment,
{
    lemma_div_mod_split(x, increment);
    let q = x / increment;
    assert((q + 1) * increment == q * increment + increment) by (nonlinear_arith);
}

} // verus!
