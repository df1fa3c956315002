//! Homogeneous-coordinate tuples, RGB colours and a pixel canvas.
//!
//! A tuple is `(x, y, z, w)`; `w` tells a point (`1.0`) from a vector (`0.0`).
//! Every component is carried as the IEEE 754 binary32 encoding of its value
//! (see [`encoding`] for the bit patterns and [`numeric`] for the numbers they
//! stand for).
//!
//! The crate does no rounding arithmetic. What it holds is everything that
//! can be decided on encodings exactly: construction, reversal, negation,
//! the tolerance test, the rules for `w` under addition and subtraction and
//! the divisors that division accepts. A caller that adds or multiplies
//! components does so in floating point and hands the results in.

use vstd::prelude::*;

pub mod canvas;
pub mod color;
pub mod encoding;
pub mod numeric;

verus! {

pub use crate::encoding::EPSILON;

/// The tuple with its components in the opposite order.
pub open spec fn reversed(t: (u32, u32, u32, u32)) -> (u32, u32, u32, u32) {
    (t.3, t.2, t.1, t.0)
}

/// Returns the components in reverse order, `(w, z, y, x)`.
pub fn reverse(value: (u32, u32, u32, u32)) -> (r: (u32, u32, u32, u32))
    ensures
        r == reversed(value),
{
    let (x, y, z, w) = value;
    (w, z, y, x)
}

/// A point: `w` is `1.0`.
pub fn point(x: u32, y: u32, z: u32) -> (r: (u32, u32, u32, u32))
    ensures
        r == (x, y, z, encoding::ONE),
        is_point(r),
        !is_vector(r),
{
    (x, y, z, encoding::ONE)
}

/// A vector: `w` is `0.0`.
pub fn vector(x: u32, y: u32, z: u32) -> (r: (u32, u32, u32, u32))
    ensures
        r == (x, y, z, encoding::ZERO),
        is_vector(r),
        !is_point(r),
{
    (x, y, z, encoding::ZERO)
}

/// `w` is numerically `1.0`.
pub open spec fn is_point(t: (u32, u32, u32, u32)) -> bool {
    encoding::same(t.3, encoding::ONE)
}

/// `w` is numerically `0.0`.
pub open spec fn is_vector(t: (u32, u32, u32, u32)) -> bool {
    encoding::same(t.3, encoding::ZERO)
}

/// Every component with its sign inverted.
pub open spec fn negation(t: (u32, u32, u32, u32)) -> (u32, u32, u32, u32) {
    (encoding::flip(t.0), encoding::flip(t.1), encoding::flip(t.2), encoding::flip(t.3))
}

/// Negates every component, `w` included.
///
/// Negation touches the sign bit alone, so zeros become `-0.0` and NaNs keep
/// their payload.
pub fn negate(a: (u32, u32, u32, u32)) -> (r: (u32, u32, u32, u32))
    ensures
        r == negation(a),
{
    let x: u32 = encoding::negated(a.0);
    let y: u32 = encoding::negated(a.1);
    let z: u32 = encoding::negated(a.2);
    let w: u32 = encoding::negated(a.3);
    (x, y, z, w)
}

/// A difference whose magnitude is below [`EPSILON`].
pub open spec fn near_zero(diff: u32) -> bool {
    encoding::lt(encoding::abs_bits(diff), EPSILON)
}

/// Tolerance test behind every approximate comparison: two numbers count as
/// equal when their difference `diff` satisfies `|diff| < EPSILON`.
///
/// A NaN difference, as of two infinities, is never within tolerance.
pub fn negligible(diff: u32) -> (r: bool)
    ensures
        r == near_zero(diff),
{
    encoding::less_than(encoding::absolute(diff), EPSILON)
}

/// `w` of the sum of two tuples.
pub open spec fn sum_w_of(a_off: u32, b_off: u32, raw: u32) -> u32 {
    if near_zero(a_off) && near_zero(b_off) {
        encoding::ONE
    } else {
        raw
    }
}

/// `w` of the difference of two tuples.
pub open spec fn difference_w_of(a_off: u32, b_off: u32, raw: u32) -> u32 {
    if near_zero(a_off) && near_zero(b_off) {
        encoding::ZERO
    } else {
        encoding::abs_bits(raw)
    }
}

/// Chooses `w` for the sum of two tuples.
///
/// `a_off` and `b_off` are the operands' `w - 1.0`, `raw` is the plain sum of
/// their `w`. When both operands are points within tolerance the sum is
/// forced to be a point (`w == 1.0`); otherwise it keeps the plain sum.
pub fn sum_w(a_off: u32, b_off: u32, raw: u32) -> (w: u32)
    ensures
        w == sum_w_of(a_off, b_off, raw),
{
    if negligible(a_off) && negligible(b_off) {
        encoding::ONE
    } else {
        raw
    }
}

/// Chooses `w` for the difference of two tuples.
///
/// `a_off` and `b_off` are the operands' `w - 1.0`, `raw` is the plain
/// difference of their `w`. When both operands are points within tolerance
/// the difference is a vector (`w == 0.0`); otherwise `w` is `|raw|`.
pub fn difference_w(a_off: u32, b_off: u32, raw: u32) -> (w: u32)
    ensures
        w == difference_w_of(a_off, b_off, raw),
{
    if negligible(a_off) && negligible(b_off) {
        encoding::ZERO
    } else {
        encoding::absolute(raw)
    }
}

/// A divisor that scalar division accepts: not zero and not below
/// [`EPSILON`]. Every negative number is below it; a NaN is not.
pub open spec fn divisor_ok(scale: u32) -> bool {
    !(encoding::same(scale, encoding::ZERO) || encoding::lt(scale, EPSILON))
}

/// Whether a tuple may be divided by `scale`.
pub fn divisor_accepted(scale: u32) -> (r: bool)
    ensures
        r == divisor_ok(scale),
{
    !(encoding::equals(scale, encoding::ZERO) || encoding::less_than(scale, EPSILON))
}

/// Reversing twice gives the tuple back.
pub proof fn lemma_reverse_involution(t: (u32, u32, u32, u32))
    ensures
        reversed(reversed(t)) == t,
{
}

/// Negating twice gives the tuple back, bit for bit.
pub proof fn lemma_negate_involution(t: (u32, u32, u32, u32))
    ensures
        negation(negation(t)) == t,
{
}

/// The negation of a vector is a vector: its `w` is `-0.0`, which is
/// numerically zero. The negation of a point is neither point nor vector.
pub proof fn lemma_negation_keeps_vectors(t: (u32, u32, u32, u32))
    ensures
        is_vector(t) <==> is_vector(negation(t)),
        is_point(t) ==> !is_point(negation(t)) && !is_vector(negation(t)),
{
}

/// The tolerance test does not depend on the sign of the difference, so it
/// answers the same for `a - b` and for `b - a`.
pub proof fn lemma_tolerance_ignores_sign(diff: u32)
    ensures
        near_zero(encoding::flip(diff)) == near_zero(diff),
{
}

/// A zero difference, of either sign, is within tolerance.
pub proof fn lemma_zero_is_negligible(diff: u32)
    requires
        encoding::is_zero(diff),
    ensures
        near_zero(diff),
{
}

/// A difference is within tolerance exactly when it is a number whose
/// absolute value is below that of [`EPSILON`].
pub proof fn lemma_tolerance_is_numeric(diff: u32)
    ensures
        near_zero(diff) <==> !encoding::is_nan(diff) && -numeric::value(EPSILON) < numeric::value(
            diff,
        ) < numeric::value(EPSILON),
{
    numeric::lemma_abs_is_absolute(diff);
    if !encoding::is_nan(diff) {
        numeric::lemma_order_is_numeric(encoding::abs_bits(diff), EPSILON);
    }
}

/// Exactly the numbers from [`EPSILON`] up, positive infinity included, and
/// the NaNs are accepted as divisors.
pub proof fn lemma_divisor_range(scale: u32)
    ensures
        divisor_ok(scale) <==> encoding::is_nan(scale) || numeric::value(scale) >= numeric::value(
            EPSILON,
        ),
        divisor_ok(scale) <==> encoding::is_nan(scale) || (!encoding::sign_negative(scale)
            && scale >= EPSILON),
{
    if !encoding::is_nan(scale) {
        numeric::lemma_order_is_numeric(scale, EPSILON);
    }
}

} // verus!
