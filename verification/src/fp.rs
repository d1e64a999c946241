//! Order and sign operations on IEEE 754 values carried as raw bit patterns.
//!
//! The library keeps every floating-point value as its bit pattern (`u32` for
//! single precision, `u64` for double precision) so that the structural logic
//! around the numerics can be specified and verified exactly.  The functions
//! here restate the IEEE 754 comparison and negation rules as plain bit-level
//! arithmetic: a double is a sign bit followed by a 63-bit magnitude that
//! orders same-signed finite values, and the two zeros compare equal.

use vstd::prelude::*;

verus! {

/// Sign bit of a double-precision pattern.
pub const F64_SIGN_MASK: u64 = 0x8000_0000_0000_0000;

/// Magnitude (everything but the sign) of a double-precision pattern.
pub const F64_MAG_MASK: u64 = 0x7fff_ffff_ffff_ffff;

/// Magnitude of the two double-precision infinities; any larger magnitude is a NaN.
pub const F64_INF_MAG: u64 = 0x7ff0_0000_0000_0000;

/// Bit pattern of double-precision negative infinity.
pub const F64_NEG_INFINITY_BITS: u64 = 0xfff0_0000_0000_0000;

/// Sign bit of a single-precision pattern.
pub const F32_SIGN_MASK: u32 = 0x8000_0000;

/// Bit pattern of single-precision `1.0`.
pub const F32_ONE_BITS: u32 = 0x3f80_0000;

/// Bit pattern of single-precision `-1.0`.
pub const F32_NEG_ONE_BITS: u32 = 0xbf80_0000;

/// Bit pattern of single-precision `+0.0`.
pub const F32_ZERO_BITS: u32 = 0;

/// Whether a double-precision bit pattern encodes a NaN: the exponent is all
/// ones and the fraction is non-zero, i.e. the magnitude exceeds infinity's.
pub open spec fn f64_is_nan_bits(b: u64) -> bool {
    b & F64_MAG_MASK > F64_INF_MAG
}

/// The IEEE 754 `<=` relation on doubles, restated over bit patterns.
/// Any comparison with a NaN is false, the two zeros are equal, a negative
/// value is below a positive one, and same-signed values order by magnitude
/// (reversed for negatives).  Infinities order above and below all finite
/// values through their magnitudes.
pub open spec fn f64_le_bits(a: u64, b: u64) -> bool {
    if f64_is_nan_bits(a) || f64_is_nan_bits(b) {
        false
    } else if a & F64_MAG_MASK == 0 && b & F64_MAG_MASK == 0 {
        true
    } else if a & F64_SIGN_MASK != 0 && b & F64_SIGN_MASK == 0 {
        true
    } else if a & F64_SIGN_MASK == 0 && b & F64_SIGN_MASK != 0 {
        false
    } else if a & F64_SIGN_MASK == 0 {
        a & F64_MAG_MASK <= b & F64_MAG_MASK
    } else {
        b & F64_MAG_MASK <= a & F64_MAG_MASK
    }
}

/// The IEEE 754 `<` relation on doubles, restated over bit patterns.
pub open spec fn f64_lt_bits(a: u64, b: u64) -> bool {
    if f64_is_nan_bits(a) || f64_is_nan_bits(b) {
        false
    } else if a & F64_MAG_MASK == 0 && b & F64_MAG_MASK == 0 {
        false
    } else if a & F64_SIGN_MASK != 0 && b & F64_SIGN_MASK == 0 {
        true
    } else if a & F64_SIGN_MASK == 0 && b & F64_SIGN_MASK != 0 {
        false
    } else if a & F64_SIGN_MASK == 0 {
        a & F64_MAG_MASK < b & F64_MAG_MASK
    } else {
        b & F64_MAG_MASK < a & F64_MAG_MASK
    }
}

/// The strict form of the total order on doubles that treats every NaN as
/// one single greatest value and otherwise follows the IEEE order.  This is
/// the key order of the pivot selection.
pub open spec fn f64_total_lt_bits(a: u64, b: u64) -> bool {
    if f64_is_nan_bits(a) {
        false
    } else if f64_is_nan_bits(b) {
        true
    } else {
        f64_lt_bits(a, b)
    }
}

/// Negation of a single-precision value: the sign bit flips and every other
/// bit is unchanged.
pub open spec fn f32_neg_bits(b: u32) -> u32 {
    b ^ F32_SIGN_MASK
}

/// Decide whether the double-precision value `a` is a NaN, on bit patterns.
pub fn f64_is_nan(a: u64) -> (r: bool)
    ensures
        r == f64_is_nan_bits(a),
{
    a & F64_MAG_MASK > F64_INF_MAG
}

/// Decide `a <= b` for double-precision values, on bit patterns.
pub fn f64_le(a: u64, b: u64) -> (r: bool)
    ensures
        r == f64_le_bits(a, b),
{
    if f64_is_nan(a) || f64_is_nan(b) {
        false
    } else if a & F64_MAG_MASK == 0 && b & F64_MAG_MASK == 0 {
        true
    } else if a & F64_SIGN_MASK != 0 && b & F64_SIGN_MASK == 0 {
        true
    } else if a & F64_SIGN_MASK == 0 && b & F64_SIGN_MASK != 0 {
        false
    } else if a & F64_SIGN_MASK == 0 {
        a & F64_MAG_MASK <= b & F64_MAG_MASK
    } else {
        b & F64_MAG_MASK <= a & F64_MAG_MASK
    }
}

/// Decide `a < b` for double-precision values, on bit patterns.
pub fn f64_lt(a: u64, b: u64) -> (r: bool)
    ensures
        r == f64_lt_bits(a, b),
{
    if f64_is_nan(a) || f64_is_nan(b) {
        false
    } else if a & F64_MAG_MASK == 0 && b & F64_MAG_MASK == 0 {
        false
    } else if a & F64_SIGN_MASK != 0 && b & F64_SIGN_MASK == 0 {
        true
    } else if a & F64_SIGN_MASK == 0 && b & F64_SIGN_MASK != 0 {
        false
    } else if a & F64_SIGN_MASK == 0 {
        a & F64_MAG_MASK < b & F64_MAG_MASK
    } else {
        b & F64_MAG_MASK < a & F64_MAG_MASK
    }
}

/// Decide `a < b` in the NaN-greatest total order, on bit patterns.
pub fn f64_total_lt(a: u64, b: u64) -> (r: bool)
    ensures
        r == f64_total_lt_bits(a, b),
{
    if f64_is_nan(a) {
        false
    } else if f64_is_nan(b) {
        true
    } else {
        f64_lt(a, b)
    }
}

/// Negate a single-precision value held as its bit pattern.
pub fn f32_negate(b: u32) -> (r: u32)
    ensures
        r == f32_neg_bits(b),
{
    b ^ F32_SIGN_MASK
}

} // verus!
