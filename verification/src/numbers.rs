//! Double-precision numbers as the verified core sees them.
//!
//! The core never computes in floating point. A number travels as its
//! IEEE 754 binary64 bit pattern; arithmetic on it is asked of the host, and
//! only the comparisons, which the standard defines in a few lines over the
//! pattern, are decided here.

use vstd::prelude::*;

verus! {

/// The pattern whose only set bit is the sign.
pub const SIGN_BIT: u64 = 0x8000_0000_0000_0000;

/// The pattern of positive infinity: every exponent bit set, no fraction bit.
pub const INFINITY: u64 = 0x7FF0_0000_0000_0000;

/// The pattern of `1.0`.
pub const ONE: u64 = 0x3FF0_0000_0000_0000;

/// Whether the sign bit is set.
pub open spec fn is_negative(bits: u64) -> bool {
    bits >= SIGN_BIT
}

/// The pattern without its sign bit.
pub open spec fn magnitude(bits: u64) -> int {
    if bits >= SIGN_BIT {
        bits - SIGN_BIT
    } else {
        bits as int
    }
}

/// Not a number: every exponent bit set and some fraction bit too.
pub open spec fn is_nan(bits: u64) -> bool {
    magnitude(bits) > INFINITY
}

/// Where a pattern that is a number stands on the number line: patterns of one
/// sign are ordered as their magnitudes, and both zeros stand at the origin.
pub open spec fn rank(bits: u64) -> int {
    if is_negative(bits) {
        -magnitude(bits)
    } else {
        magnitude(bits)
    }
}

/// Numeric equality: false when either side is not a number, and the two
/// zeros are equal.
pub open spec fn numbers_equal(left: u64, right: u64) -> bool {
    !is_nan(left) && !is_nan(right) && rank(left) == rank(right)
}

/// Numeric order: false when either side is not a number.
pub open spec fn number_less(left: u64, right: u64) -> bool {
    !is_nan(left) && !is_nan(right) && rank(left) < rank(right)
}

fn magnitude_of(bits: u64) -> (r: u64)
    ensures
        r == magnitude(bits),
{
    if bits >= SIGN_BIT {
        bits - SIGN_BIT
    } else {
        bits
    }
}

/// Whether the pattern is not a number.
pub fn is_not_a_number(bits: u64) -> (r: bool)
    ensures
        r == is_nan(bits),
{
    magnitude_of(bits) > INFINITY
}

/// Numeric equality of two patterns.
pub fn equal(left: u64, right: u64) -> (r: bool)
    ensures
        r == numbers_equal(left, right),
{
    let a = magnitude_of(left);
    let b = magnitude_of(right);
    if a > INFINITY || b > INFINITY {
        false
    } else if a == 0 && b == 0 {
        true
    } else {
        left == right
    }
}

/// Numeric order of two patterns.
pub fn less(left: u64, right: u64) -> (r: bool)
    ensures
        r == number_less(left, right),
{
    let a = magnitude_of(left);
    let b = magnitude_of(right);
    if a > INFINITY || b > INFINITY {
        false
    } else if left >= SIGN_BIT {
        if right >= SIGN_BIT {
            a > b
        } else {
            a > 0 || b > 0
        }
    } else {
        if right >= SIGN_BIT {
            false
        } else {
            a < b
        }
    }
}

/// Equality is symmetric, and a number that is one equals itself.
pub proof fn lemma_equal_laws(left: u64, right: u64)
    ensures
        numbers_equal(left, right) == numbers_equal(right, left),
        numbers_equal(left, left) == !is_nan(left),
        !(number_less(left, right) && number_less(right, left)),
        !(number_less(left, right) && numbers_equal(left, right)),
{
}

} // verus!
