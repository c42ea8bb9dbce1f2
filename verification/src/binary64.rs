//! Measured signals and concentrations are carried as the 64-bit patterns of
//! IEEE 754 double-precision numbers. This module states, over those patterns,
//! the two facts the rest of the library needs: which patterns stand for finite
//! numbers, and how the numbers they stand for are ordered.
use vstd::prelude::*;

verus! {

/// The sign bit of a pattern.
pub const SIGN_MASK: u64 = 0x8000_0000_0000_0000;

/// The eleven exponent bits of a pattern.
pub const EXPONENT_MASK: u64 = 0x7ff0_0000_0000_0000;

/// Everything but the sign bit: exponent and fraction.
pub const MAGNITUDE_MASK: u64 = 0x7fff_ffff_ffff_ffff;

/// A pattern stands for a finite number exactly when its exponent bits are not
/// all ones (all ones encodes the infinities and the NaNs).
pub open spec fn finite(bits: u64) -> bool {
    bits & EXPONENT_MASK != EXPONENT_MASK
}

/// An integer that orders patterns as the numbers they stand for are ordered.
/// For patterns that are not NaNs, `order_key(a) < order_key(b)` holds exactly
/// when the number behind `a` is less than the number behind `b`; the two
/// zeros share the key 0.
pub open spec fn order_key(bits: u64) -> int {
    if bits & SIGN_MASK == 0 {
        (bits & MAGNITUDE_MASK) as int
    } else {
        -((bits & MAGNITUDE_MASK) as int)
    }
}

/// Whether the pattern stands for a finite number.
pub fn is_finite(bits: u64) -> (r: bool)
    ensures
        r == finite(bits),
{
    bits & EXPONENT_MASK != EXPONENT_MASK
}

/// Whether the key of `a` is below the key of `b`: for patterns that are not
/// NaNs, whether the number behind `a` is less than the number behind `b`.
pub fn precedes(a: u64, b: u64) -> (r: bool)
    ensures
        r == (order_key(a) < order_key(b)),
{
    let a_magnitude: u64 = a & MAGNITUDE_MASK;
    let b_magnitude: u64 = b & MAGNITUDE_MASK;
    let a_negative = a & SIGN_MASK != 0;
    let b_negative = b & SIGN_MASK != 0;
    if a_negative {
        if b_negative {
            b_magnitude < a_magnitude
        } else {
            a_magnitude != 0 || b_magnitude != 0
        }
    } else {
        if b_negative {
            false
        } else {
            a_magnitude < b_magnitude
        }
    }
}

} // verus!
