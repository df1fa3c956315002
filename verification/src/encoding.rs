//! Single-precision numbers held as their IEEE 754 binary32 encodings.
//!
//! A number is a `u32`: one sign bit, eight exponent bits, twenty-three
//! fraction bits. Everything here is stated on that encoding with integer
//! arithmetic alone, so that sign, magnitude and order can be reasoned about
//! exactly.

use vstd::prelude::*;

verus! {

/// Encoding of `+0.0`.
pub const ZERO: u32 = 0x0000_0000;

/// Encoding of `1.0`.
pub const ONE: u32 = 0x3F80_0000;

/// Encoding of the shared comparison tolerance, `0.00001`.
pub const EPSILON: u32 = 0x3727_C5AC;

/// The sign bit alone.
pub const SIGN: u32 = 0x8000_0000;

/// Encoding of positive infinity; every larger magnitude is a NaN.
pub const INFINITY: u32 = 0x7F80_0000;

/// The sign bit is set. Holds of `-0.0` and of negative NaNs too.
pub open spec fn sign_negative(b: u32) -> bool {
    b >= SIGN
}

/// The encoding with its sign bit cleared.
pub open spec fn abs_bits(b: u32) -> u32 {
    if b >= SIGN {
        (b - SIGN) as u32
    } else {
        b
    }
}

/// The encoding with its sign bit inverted.
pub open spec fn flip(b: u32) -> u32 {
    if b >= SIGN {
        (b - SIGN) as u32
    } else {
        (b + SIGN) as u32
    }
}

/// Not a number: the exponent is all ones and the fraction is not zero.
pub open spec fn is_nan(b: u32) -> bool {
    abs_bits(b) > INFINITY
}

/// Either zero, `+0.0` or `-0.0`.
pub open spec fn is_zero(b: u32) -> bool {
    abs_bits(b) == 0
}

/// Position of a number on the line of all encodings that are not NaN.
///
/// Among numbers of one sign a larger magnitude has a larger encoding, so the
/// signed magnitude orders them as their values do; both zeros stand at 0.
pub open spec fn rank(b: u32) -> int {
    if sign_negative(b) {
        -(abs_bits(b) as int)
    } else {
        abs_bits(b) as int
    }
}

/// `a < b` as numbers. A NaN is less than nothing and nothing is less than it.
pub open spec fn lt(a: u32, b: u32) -> bool {
    !is_nan(a) && !is_nan(b) && rank(a) < rank(b)
}

/// `a == b` as numbers: the two zeros are equal, a NaN equals nothing.
pub open spec fn same(a: u32, b: u32) -> bool {
    !is_nan(a) && !is_nan(b) && rank(a) == rank(b)
}

/// Clears the sign bit.
pub fn absolute(b: u32) -> (r: u32)
    ensures
        r == abs_bits(b),
        !sign_negative(r),
{
    if b >= SIGN {
        b - SIGN
    } else {
        b
    }
}

/// Inverts the sign bit and leaves the magnitude alone.
pub fn negated(b: u32) -> (r: u32)
    ensures
        r == flip(b),
        sign_negative(r) != sign_negative(b),
        abs_bits(r) == abs_bits(b),
{
    if b >= SIGN {
        b - SIGN
    } else {
        b + SIGN
    }
}

/// Whether the encoding is a NaN.
pub fn nan(b: u32) -> (r: bool)
    ensures
        r == is_nan(b),
{
    absolute(b) > INFINITY
}

/// Numeric less-than on encodings.
pub fn less_than(a: u32, b: u32) -> (r: bool)
    ensures
        r == lt(a, b),
{
    if nan(a) || nan(b) {
        return false;
    }
    let ma: u32 = absolute(a);
    let mb: u32 = absolute(b);
    if a >= SIGN {
        if b >= SIGN {
            mb < ma
        } else {
            ma != 0 || mb != 0
        }
    } else {
        if b >= SIGN {
            false
        } else {
            ma < mb
        }
    }
}

/// Numeric equality on encodings.
pub fn equals(a: u32, b: u32) -> (r: bool)
    ensures
        r == same(a, b),
{
    if nan(a) || nan(b) {
        return false;
    }
    a == b || (absolute(a) == 0 && absolute(b) == 0)
}

} // verus!
