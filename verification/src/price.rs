use vstd::prelude::*;

verus! {

// Prices are 64-bit binary floating-point numbers. They are carried as their
// bit patterns: the sign in the top bit, below it the exponent and the
// fraction, which together order the magnitudes of all numbers that are not
// NaN as unsigned integers.

/// The bit pattern with only the sign bit set.
pub const SIGN_BIT: u64 = 0x8000_0000_0000_0000;

/// The bit pattern of positive infinity: the largest magnitude that is a number.
pub const INFINITY_BITS: u64 = 0x7ff0_0000_0000_0000;

/// The pattern without its sign bit.
pub open spec fn magnitude(bits: u64) -> int {
    if bits >= SIGN_BIT {
        bits - SIGN_BIT
    } else {
        bits as int
    }
}

/// Whether the pattern is no number (NaN).
pub open spec fn is_nan(bits: u64) -> bool {
    magnitude(bits) > INFINITY_BITS
}

/// Where a number stands on the number line, relative to the others: the
/// magnitude, negated for a negative number. Both zeros stand at 0.
pub open spec fn rank(bits: u64) -> int {
    if bits >= SIGN_BIT {
        -magnitude(bits)
    } else {
        magnitude(bits)
    }
}

/// `a < b` as floating-point numbers: false where either is NaN.
pub open spec fn less(a: u64, b: u64) -> bool {
    !is_nan(a) && !is_nan(b) && rank(a) < rank(b)
}

/// `a <= b` as floating-point numbers: false where either is NaN.
pub open spec fn less_or_equal(a: u64, b: u64) -> bool {
    !is_nan(a) && !is_nan(b) && rank(a) <= rank(b)
}

/// Whether the pattern is no number (NaN).
pub fn bits_are_nan(bits: u64) -> (r: bool)
    ensures
        r == is_nan(bits),
{
    if bits >= SIGN_BIT {
        bits - SIGN_BIT > INFINITY_BITS
    } else {
        bits > INFINITY_BITS
    }
}

/// Whether `a < b` as floating-point numbers.
pub fn bits_less(a: u64, b: u64) -> (r: bool)
    ensures
        r == less(a, b),
{
    if bits_are_nan(a) || bits_are_nan(b) {
        false
    } else if a >= SIGN_BIT {
        if b >= SIGN_BIT {
            // both negative: the larger magnitude is the smaller number
            a > b
        } else {
            // a zero of either sign is not below the other
            a - SIGN_BIT > 0 || b > 0
        }
    } else {
        b < SIGN_BIT && a < b
    }
}

/// An amount of money, as the bits of a 64-bit floating-point number.
#[derive(Debug, Clone, Copy, PartialEq, Eq, Structural)]
pub struct Price(pub u64);

/// A ratio in percent, as the bits of a 64-bit floating-point number.
#[derive(Debug, Clone, Copy, PartialEq, Eq, Structural)]
pub struct Percentage(pub u64);

} // verus!
