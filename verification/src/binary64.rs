//! IEEE 754 binary64 encodings, read as integers.
//!
//! The renderer's coordinates are double-precision numbers.  This crate
//! carries them as their 64-bit encodings and never does arithmetic on
//! them; all it needs is to tell whether an encoding stands for a finite
//! number and which of two encodings stands for the smaller one.  Both
//! questions have exact answers over the bit pattern.

use vstd::prelude::*;

verus! {

/// The encoding's top bit: set for negative numbers and for negative zero.
pub const SIGN_BIT: u64 = 0x8000_0000_0000_0000;

/// The encoding of positive infinity.  Magnitudes above it are NaNs.
pub const INFINITY: u64 = 0x7ff0_0000_0000_0000;

/// The encoding with its sign bit cleared.
pub open spec fn magnitude(bits: u64) -> int {
    if bits >= SIGN_BIT {
        bits - SIGN_BIT
    } else {
        bits as int
    }
}

/// Whether the sign bit is set.
pub open spec fn is_negative(bits: u64) -> bool {
    bits >= SIGN_BIT
}

/// Whether the encoding stands for a number: zero, subnormal or normal,
/// neither an infinity nor a NaN.
pub open spec fn is_finite(bits: u64) -> bool {
    magnitude(bits) < INFINITY
}

/// Whether the encoding is a NaN.
pub open spec fn is_nan(bits: u64) -> bool {
    magnitude(bits) > INFINITY
}

/// An integer that orders encodings as the numbers they stand for.
///
/// Among encodings that are not NaNs, `a` stands for a smaller number than
/// `b` exactly when `rank(a) < rank(b)`.  Both zeros have rank 0.
pub open spec fn rank(bits: u64) -> int {
    if is_negative(bits) {
        -magnitude(bits)
    } else {
        magnitude(bits)
    }
}

/// The `<` of binary64 on encodings: false whenever either side is a NaN.
pub open spec fn less_than(a: u64, b: u64) -> bool {
    !is_nan(a) && !is_nan(b) && rank(a) < rank(b)
}

/// Whether the encoding stands for a finite number greater than zero.
pub open spec fn is_positive_finite(bits: u64) -> bool {
    is_finite(bits) && rank(bits) > 0
}

/// Clears the sign bit.
fn abs_bits(bits: u64) -> (m: u64)
    ensures
        m == magnitude(bits),
{
    if bits >= SIGN_BIT {
        bits - SIGN_BIT
    } else {
        bits
    }
}

/// Tells whether `bits` encodes a finite number.
pub fn finite(bits: u64) -> (r: bool)
    ensures
        r == is_finite(bits),
{
    abs_bits(bits) < INFINITY
}

/// Tells whether `bits` encodes a finite number greater than zero.
pub fn positive_finite(bits: u64) -> (r: bool)
    ensures
        r == is_positive_finite(bits),
{
    0 < bits && bits < INFINITY
}

/// Compares two encodings as binary64 `<` compares the numbers.
pub fn lt(a: u64, b: u64) -> (r: bool)
    ensures
        r == less_than(a, b),
{
    let ma: u64 = abs_bits(a);
    let mb: u64 = abs_bits(b);
    if ma > INFINITY || mb > INFINITY {
        false
    } else if a >= SIGN_BIT {
        if b >= SIGN_BIT {
            mb < ma
        } else {
            ma > 0 || mb > 0
        }
    } else {
        b < SIGN_BIT && ma < mb
    }
}

} // verus!
