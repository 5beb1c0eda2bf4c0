//! Ordering of binary64 numbers, carried as their 64-bit patterns.
//!
//! A pattern has a sign bit, eleven exponent bits and fifty-two fraction bits.
//! Among the patterns that are numbers, the order of the numbers is the order
//! of sign and magnitude, with both zeros equal. A pattern whose exponent bits
//! are all set and whose fraction is not zero is not a number, and compares
//! with nothing.

use vstd::prelude::*;

verus! {

/// The pattern with only the sign bit set.
pub const SIGN_BIT: u64 = 0x8000_0000_0000_0000;

/// The pattern of positive infinity: the largest magnitude that is a number.
pub const POSITIVE_INFINITY: u64 = 0x7ff0_0000_0000_0000;

/// The pattern of negative infinity.
pub const NEGATIVE_INFINITY: u64 = 0xfff0_0000_0000_0000;

/// The pattern without its sign bit.
pub open spec fn float_magnitude(bits: u64) -> int {
    if bits >= SIGN_BIT {
        bits - SIGN_BIT
    } else {
        bits as int
    }
}

/// Whether the pattern is not a number.
pub open spec fn float_is_nan_spec(bits: u64) -> bool {
    float_magnitude(bits) > POSITIVE_INFINITY
}

/// The place of a number on the line: its magnitude, negated under a set sign.
pub open spec fn float_rank(bits: u64) -> int {
    if bits >= SIGN_BIT {
        -float_magnitude(bits)
    } else {
        float_magnitude(bits)
    }
}

/// `a <= b` as numbers: false as soon as one of them is not a number.
pub open spec fn float_le_spec(a: u64, b: u64) -> bool {
    !float_is_nan_spec(a) && !float_is_nan_spec(b) && float_rank(a) <= float_rank(b)
}

/// Whether `value` is accepted by the bounds `min` and `max`: a value that
/// is not a number is accepted exactly when `nan_ok` is set, any other
/// exactly when it lies between the bounds, ends included.
pub open spec fn float_in_range_spec(value: u64, min: u64, max: u64, nan_ok: bool) -> bool {
    if float_is_nan_spec(value) {
        nan_ok
    } else {
        float_le_spec(min, value) && float_le_spec(value, max)
    }
}

#[verifier::when_used_as_spec(float_is_nan_spec)]
pub fn float_is_nan(bits: u64) -> (r: bool)
    ensures
        r == float_is_nan_spec(bits),
{
    let magnitude: u64 = if bits >= SIGN_BIT {
        bits - SIGN_BIT
    } else {
        bits
    };
    magnitude > POSITIVE_INFINITY
}

#[verifier::when_used_as_spec(float_le_spec)]
pub fn float_le(a: u64, b: u64) -> (r: bool)
    ensures
        r == float_le_spec(a, b),
{
    if float_is_nan(a) || float_is_nan(b) {
        return false;
    }
    if a >= SIGN_BIT {
        if b >= SIGN_BIT {
            // both carry the sign: the larger magnitude is the smaller number
            b <= a
        } else {
            true
        }
    } else if b >= SIGN_BIT {
        // only a zero of either sign is not above a negative number
        a == 0 && b == SIGN_BIT
    } else {
        a <= b
    }
}

#[verifier::when_used_as_spec(float_in_range_spec)]
pub fn float_in_range(value: u64, min: u64, max: u64, nan_ok: bool) -> (r: bool)
    ensures
        r == float_in_range_spec(value, min, max, nan_ok),
{
    if float_is_nan(value) {
        nan_ok
    } else {
        float_le(min, value) && float_le(value, max)
    }
}

} // verus!
