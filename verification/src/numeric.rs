//! What an encoding means as a number.
//!
//! Every binary32 number that is not a NaN is a whole multiple of `2^-149`,
//! the smallest subnormal. Its [`value`] is that multiple, an `int`; positive
//! and negative infinity read as `2^277` and `-2^277`, beyond every finite
//! number. The lemmas here show that the order and the equality that
//! [`crate::encoding`] computes on bit patterns are those of the values.

use vstd::prelude::*;
use vstd::arithmetic::power2::{
    lemma2_to64, lemma_pow2_adds, lemma_pow2_pos, lemma_pow2_strictly_increases,
    lemma_pow2_unfold, pow2,
};
use crate::encoding::{
    abs_bits, flip, is_nan, is_zero, lt, rank, same, sign_negative, EPSILON, INFINITY, ONE,
};

verus! {

/// Number of encodings that share one exponent: `2^23`.
pub const BINADE: u32 = 0x80_0000;

/// The exponent field of a magnitude.
pub open spec fn exponent(m: u32) -> int {
    m as int / BINADE as int
}

/// The fraction field of a magnitude.
pub open spec fn fraction(m: u32) -> int {
    m as int % BINADE as int
}

/// The number that a magnitude (an encoding without its sign bit) stands
/// for, in units of `2^-149`.
///
/// With a zero exponent field the number is subnormal and the fraction
/// counts the units; otherwise the fraction gains its hidden leading bit and
/// is scaled by the exponent.
pub open spec fn scaled(m: u32) -> int {
    if exponent(m) == 0 {
        fraction(m)
    } else {
        (BINADE + fraction(m)) * pow2((exponent(m) - 1) as nat)
    }
}

/// The number that an encoding stands for, in units of `2^-149`.
pub open spec fn value(b: u32) -> int {
    if sign_negative(b) {
        -scaled(abs_bits(b))
    } else {
        scaled(abs_bits(b))
    }
}

/// A larger magnitude stands for a larger number.
pub proof fn lemma_scaled_increases(m1: u32, m2: u32)
    requires
        m1 < m2,
    ensures
        0 <= scaled(m1) < scaled(m2),
{
    let e1 = exponent(m1);
    let e2 = exponent(m2);
    let f1 = fraction(m1);
    let f2 = fraction(m2);
    assert(e1 < e2 || (e1 == e2 && f1 < f2));
    if e1 == e2 {
        if e1 != 0 {
            let p = pow2((e1 - 1) as nat);
            lemma_pow2_pos((e1 - 1) as nat);
            assert((BINADE + f1) * p < (BINADE + f2) * p) by (nonlinear_arith)
                requires
                    f1 < f2,
                    p > 0,
            ;
            assert(0 <= (BINADE + f1) * p) by (nonlinear_arith)
                requires
                    f1 >= 0,
                    p > 0,
            ;
        }
    } else {
        let high = pow2((e2 - 1) as nat);
        lemma_pow2_pos((e2 - 1) as nat);
        assert(BINADE * high <= (BINADE + f2) * high) by (nonlinear_arith)
            requires
                f2 >= 0,
                high > 0,
        ;
        if e1 == 0 {
            assert(BINADE * 1 <= BINADE * high) by (nonlinear_arith)
                requires
                    high >= 1,
            ;
        } else {
            let low = pow2((e1 - 1) as nat);
            lemma_pow2_pos((e1 - 1) as nat);
            lemma_pow2_unfold(e1 as nat);
            if e1 < e2 - 1 {
                lemma_pow2_strictly_increases(e1 as nat, (e2 - 1) as nat);
            }
            assert(2 * low <= high);
            assert((BINADE + f1) * low < BINADE * high) by (nonlinear_arith)
                requires
                    0 <= f1 < BINADE,
                    low > 0,
                    2 * low <= high,
            ;
            assert(0 <= (BINADE + f1) * low) by (nonlinear_arith)
                requires
                    f1 >= 0,
                    low > 0,
            ;
        }
    }
}

/// Only the zero magnitude stands for zero, and no magnitude for a negative
/// number.
pub proof fn lemma_scaled_zero(m: u32)
    ensures
        scaled(m) >= 0,
        scaled(m) == 0 <==> m == 0,
{
    if m > 0 {
        lemma_scaled_increases(0, m);
    }
}

/// Magnitudes are ordered as the numbers they stand for.
pub proof fn lemma_scaled_order(m1: u32, m2: u32)
    ensures
        m1 < m2 <==> scaled(m1) < scaled(m2),
        m1 == m2 <==> scaled(m1) == scaled(m2),
{
    if m1 < m2 {
        lemma_scaled_increases(m1, m2);
    } else if m2 < m1 {
        lemma_scaled_increases(m2, m1);
    }
}

/// On encodings that are not NaN, less-than and equality as computed on the
/// bit patterns are less-than and equality of the values.
pub proof fn lemma_order_is_numeric(a: u32, b: u32)
    requires
        !is_nan(a),
        !is_nan(b),
    ensures
        lt(a, b) <==> value(a) < value(b),
        same(a, b) <==> value(a) == value(b),
        rank(a) < rank(b) <==> value(a) < value(b),
{
    lemma_scaled_order(abs_bits(a), abs_bits(b));
    lemma_scaled_zero(abs_bits(a));
    lemma_scaled_zero(abs_bits(b));
}

/// Inverting the sign bit negates the value.
pub proof fn lemma_flip_negates(b: u32)
    ensures
        value(flip(b)) == -value(b),
        is_nan(flip(b)) == is_nan(b),
{
}

/// Clearing the sign bit takes the absolute value.
pub proof fn lemma_abs_is_absolute(b: u32)
    ensures
        value(abs_bits(b)) == (if value(b) < 0 {
            -value(b)
        } else {
            value(b)
        }),
{
    lemma_scaled_zero(abs_bits(b));
}

/// Both zeros, and nothing else, have the value 0.
pub proof fn lemma_zero_value(b: u32)
    ensures
        is_zero(b) <==> value(b) == 0,
{
    lemma_scaled_zero(abs_bits(b));
}

/// `1.0` is `2^149` units of `2^-149`.
pub proof fn lemma_value_of_one()
    ensures
        value(ONE) == pow2(149),
{
    assert(exponent(ONE) == 127 && fraction(ONE) == 0);
    lemma_pow2_adds_23(126);
}

/// The tolerance is `10995116 * 2^-40`, a little above one hundred
/// thousandth.
pub proof fn lemma_value_of_epsilon()
    ensures
        value(EPSILON) == 10995116 * pow2(109),
{
    assert(exponent(EPSILON) == 110 && fraction(EPSILON) == 0x27_C5AC);
}

/// Infinity stands beyond every finite number, at `2^277`.
pub proof fn lemma_value_of_infinity()
    ensures
        value(INFINITY) == pow2(277),
{
    assert(exponent(INFINITY) == 255 && fraction(INFINITY) == 0);
    lemma_pow2_adds_23(254);
}

proof fn lemma_pow2_adds_23(e: nat)
    ensures
        BINADE * pow2(e) == pow2(e + 23),
{
    lemma_pow2_adds(23, e);
    lemma2_to64();
}

} // verus!
