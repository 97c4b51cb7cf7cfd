//! IEEE-754 double-precision values, seen through their 64-bit encodings.
//!
//! The optimizer's stopping rule compares two energy values for exact
//! floating-point equality. The unverified front end hands energies to the
//! driver as raw bit patterns (`f64::to_bits`), and this module defines what
//! equality of the encoded values means: NaN encodings compare equal to
//! nothing (not even themselves), the two zero encodings compare equal to
//! each other, and every other value compares equal exactly to its own
//! encoding.

use vstd::prelude::*;

verus! {

/// Exponent field of a double-precision encoding: bits 52..63.
pub open spec fn exponent_bits(b: u64) -> u64 {
    (b >> 52) & 0x7ff
}

/// Fraction (mantissa) field of a double-precision encoding: bits 0..52.
pub open spec fn fraction_bits(b: u64) -> u64 {
    b & 0xf_ffff_ffff_ffff
}

/// A NaN encoding: exponent all ones, fraction non-zero.
pub open spec fn is_nan_bits(b: u64) -> bool {
    exponent_bits(b) == 0x7ff && fraction_bits(b) != 0
}

/// A zero encoding: everything but the sign bit is zero (so `+0.0` or `-0.0`).
pub open spec fn is_zero_bits(b: u64) -> bool {
    b & 0x7fff_ffff_ffff_ffff == 0
}

/// Equality of the doubles encoded by `a` and `b`, as IEEE-754 comparison
/// defines it: false whenever either side is NaN, true for any two zeros,
/// and otherwise true exactly for identical encodings.
pub open spec fn f64_bits_eq(a: u64, b: u64) -> bool {
    &&& !is_nan_bits(a)
    &&& !is_nan_bits(b)
    &&& (a == b || (is_zero_bits(a) && is_zero_bits(b)))
}

/// Decides `f64_bits_eq` on two encodings.
pub fn bits_eq(a: u64, b: u64) -> (r: bool)
    ensures
        r == f64_bits_eq(a, b),
{
    let a_nan = (a >> 52) & 0x7ff == 0x7ff && a & 0xf_ffff_ffff_ffff != 0;
    let b_nan = (b >> 52) & 0x7ff == 0x7ff && b & 0xf_ffff_ffff_ffff != 0;
    let both_zero = a & 0x7fff_ffff_ffff_ffff == 0 && b & 0x7fff_ffff_ffff_ffff == 0;
    !a_nan && !b_nan && (a == b || both_zero)
}

} // verus!
