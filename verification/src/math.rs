//! Floor division on 128-bit integers, and the facts about it that the proofs
//! of this crate share.

use vstd::prelude::*;

use vstd::arithmetic::div_mod::{
    lemma_fundamental_div_mod,
    lemma_fundamental_div_mod_converse,
    lemma_mod_bound,
};

verus! {

/// The absolute value of an integer.
pub open spec fn abs(x: int) -> int {
    if x < 0 {
        -x
    } else {
        x
    }
}

/// A number is its floor quotient times the divisor, plus a remainder that is
/// not negative and less than the divisor.
pub proof fn lemma_div_mod_split(x: int, d: int)
    requires
        d > 0,
    ensures
        x == (x / d) * d + x % d,
        0 <= x % d < d,
{
    lemma_fundamental_div_mod(x, d);
    lemma_mod_bound(x, d);
    assert(d * (x / d) == (x / d) * d) by (nonlinear_arith);
}

/// Floor quotient and remainder are the only pair that splits a number so.
pub proof fn lemma_div_mod_unique(x: int, d: int, q: int, r: int)
    requires
        d > 0,
        0 <= r < d,
        x == q * d + r,
    ensures
        x / d == q,
        x % d == r,
{
    lemma_fundamental_div_mod_converse(x, d, q, r);
}

/// The floor quotient of a number is no larger in magnitude than the number.
pub proof fn lemma_div_bound(x: int, d: int)
    requires
        d > 0,
    ensures
        x >= 0 ==> 0 <= x / d <= x,
        x < 0 ==> x <= x / d < 0,
{
    lemma_div_mod_split(x, d);
    let q = x / d;
    let r = x % d;
    assert(x >= 0 ==> 0 <= q <= x) by (nonlinear_arith)
        requires
            d > 0,
            x == q * d + r,
            0 <= r < d,
    ;
    assert(x < 0 ==> x <= q < 0) by (nonlinear_arith)
        requires
            d > 0,
            x == q * d + r,
            0 <= r < d,
    ;
}

/// Returns the floor quotient of `x` by a positive `d`.
pub fn div_floor(x: i128, d: i128) -> (quotient: i128)
    requires
        d > 0,
    ensures
        quotient == x as int / d as int,
{
    proof {
        lemma_div_bound(x as int, d as int);
    }
    x.checked_div_euclid(d).unwrap()
}

/// Returns the remainder of the floor division of `x` by a positive `d`.
pub fn rem_floor(x: i128, d: i128) -> (remainder: i128)
    requires
        d > 0,
    ensures
        remainder == x as int % d as int,
        0 <= remainder < d,
{
    proof {
        lemma_div_mod_split(x as int, d as int);
    }
    x.checked_rem_euclid(d).unwrap()
}

} // verus!
