//! Bit-level model of IEEE-754 double-precision values.
//!
//! A double is carried as its 64-bit pattern: 1 sign bit, 11 exponent bits,
//! 52 fraction bits.  On these patterns the module defines the ordered
//! greater-than comparison (false whenever either operand is NaN) and proves
//! an executable implementation of it.

use vstd::prelude::*;

verus! {

/// The 11-bit exponent field of a double's bit pattern.
pub open spec fn exp_bits(b: u64) -> u64 {
    (b >> 52) & 0x7ff
}

/// The 52-bit fraction field of a double's bit pattern.
pub open spec fn frac_bits(b: u64) -> u64 {
    b & 0xf_ffff_ffff_ffff
}

/// A pattern denotes NaN exactly when the exponent field is all ones and the
/// fraction field is non-zero.
pub open spec fn is_nan(b: u64) -> bool {
    exp_bits(b) == 0x7ff && frac_bits(b) != 0
}

/// The sign bit is set: the pattern denotes a negative value (or negative zero).
pub open spec fn is_neg(b: u64) -> bool {
    (b >> 63) == 1
}

/// The pattern with the sign bit cleared.  For non-NaN patterns of one sign,
/// the denoted magnitudes order exactly as these 63-bit values do.
pub open spec fn magnitude(b: u64) -> u64 {
    b & 0x7fff_ffff_ffff_ffff
}

/// An integer key that orders non-NaN patterns as the doubles they denote:
/// negative patterns sort by descending magnitude below the non-negative
/// ones, and both zeros share the key 0.
pub open spec fn order_key(b: u64) -> int {
    if is_neg(b) {
        -(magnitude(b) as int)
    } else {
        magnitude(b) as int
    }
}

/// Ordered greater-than on doubles given by their bit patterns: false if
/// either operand is NaN, otherwise true exactly when the first denoted
/// value exceeds the second.
pub open spec fn f64_gt(a: u64, b: u64) -> bool {
    !is_nan(a) && !is_nan(b) && order_key(a) > order_key(b)
}

/// Whether a bit pattern denotes NaN.
pub fn is_nan_bits(b: u64) -> (r: bool)
    ensures
        r == is_nan(b),
{
    ((b >> 52) & 0x7ff) == 0x7ff && (b & 0xf_ffff_ffff_ffff) != 0
}

/// The ordered greater-than comparison on two doubles given by their bit
/// patterns.
pub fn float_gt_bits(a: u64, b: u64) -> (r: bool)
    ensures
        r == f64_gt(a, b),
{
    if is_nan_bits(a) || is_nan_bits(b) {
        return false;
    }
    let a_neg: bool = (a >> 63) == 1;
    let b_neg: bool = (b >> 63) == 1;
    let a_mag: u64 = a & 0x7fff_ffff_ffff_ffff;
    let b_mag: u64 = b & 0x7fff_ffff_ffff_ffff;
    if !a_neg && !b_neg {
        a_mag > b_mag
    } else if a_neg && b_neg {
        a_mag < b_mag
    } else if !a_neg {
        // a is non-negative, b is negative: a > b unless both are zeros.
        a_mag != 0 || b_mag != 0
    } else {
        // a is negative, b is non-negative: a can never exceed b.
        false
    }
}

} // verus!
