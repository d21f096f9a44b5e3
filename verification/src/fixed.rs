//! Truncating division on scaled integers.
//!
//! The simulation stores world coordinates as integers in milli-units, and
//! every force formula divides by a squared distance or by the scale. Rust's
//! `/` on signed integers truncates toward zero, while the `/` of
//! specifications is Euclidean; `tdiv` is the specification-level picture of
//! the executable division used throughout the crate.

use vstd::prelude::*;

use vstd::arithmetic::div_mod::lemma_div_pos_is_pos;
use vstd::arithmetic::div_mod::lemma_div_nonincreasing;
use vstd::arithmetic::div_mod::lemma_div_is_ordered;
use vstd::arithmetic::div_mod::lemma_multiply_divide_le;
use vstd::arithmetic::div_mod::lemma_div_by_self;

verus! {

/// Truncating (round-toward-zero) integer division, for a positive divisor.
pub open spec fn tdiv(a: int, b: int) -> int {
    if a >= 0 {
        a / b
    } else {
        -((-a) / b)
    }
}

/// Executable truncating division on wide intermediates.
pub fn div_trunc(num: i128, den: i128) -> (q: i128)
    requires
        0 < den,
        i128::MIN < num,
    ensures
        q == tdiv(num as int, den as int),
{
    if num >= 0 {
        num / den
    } else {
        -((-num) / den)
    }
}

/// The quotient never grows past the dividend, and keeps its sign.
pub proof fn lemma_tdiv_abs_bound(a: int, b: int)
    requires
        0 < b,
    ensures
        a >= 0 ==> 0 <= tdiv(a, b) <= a,
        a < 0 ==> a <= tdiv(a, b) <= 0,
{
    if a >= 0 {
        lemma_div_pos_is_pos(a, b);
        lemma_div_nonincreasing(a, b);
    } else {
        lemma_div_pos_is_pos(-a, b);
        lemma_div_nonincreasing(-a, b);
    }
}

/// A dividend within `b * c` of zero gives a quotient within `c` of zero.
pub proof fn lemma_tdiv_scale_bound(a: int, b: int, c: int)
    requires
        0 < b,
        0 <= c,
        -(b * c) <= a <= b * c,
    ensures
        -c <= tdiv(a, b) <= c,
{
    if a >= 0 {
        lemma_div_pos_is_pos(a, b);
        lemma_multiply_divide_le(a, b, c);
    } else {
        lemma_div_pos_is_pos(-a, b);
        lemma_multiply_divide_le(-a, b, c);
    }
}

/// A dividend at or above a positive divisor gives a quotient of at least one.
pub proof fn lemma_tdiv_at_least_one(a: int, b: int)
    requires
        0 < b <= a,
    ensures
        1 <= tdiv(a, b) <= a,
    {
    lemma_div_by_self(b);
    lemma_div_is_ordered(b, a, b);
    lemma_div_nonincreasing(a, b);
}

} // verus!
