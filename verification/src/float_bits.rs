//! Floating-point numbers carried as their bits.
//!
//! The vocabulary has a few fractions and sums in it. They are carried here
//! as the IEEE 754 bits that `f32::to_bits` and `f64::to_bits` give, and
//! compared the way the floats themselves compare: a NaN equals nothing, not
//! even itself, and `0.0` equals `-0.0`.

use vstd::prelude::*;
use vstd::std_specs::cmp::PartialEqSpecImpl;

verus! {

/// Whether the bits of an `f32` are a NaN: every exponent bit set and a
/// fraction that is not zero.
pub open spec fn is_nan_f32(bits: u32) -> bool {
    bits & 0x7f80_0000u32 == 0x7f80_0000u32 && bits & 0x007f_ffffu32 != 0
}

/// Whether the bits of an `f32` are a zero of either sign.
pub open spec fn is_zero_f32(bits: u32) -> bool {
    bits & 0x7fff_ffffu32 == 0
}

/// Whether two `f32`s, given by their bits, are equal as floats.
pub open spec fn f32_equal(left: u32, right: u32) -> bool {
    &&& !is_nan_f32(left)
    &&& !is_nan_f32(right)
    &&& (left == right || (is_zero_f32(left) && is_zero_f32(right)))
}

/// Whether the bits of an `f64` are a NaN.
pub open spec fn is_nan_f64(bits: u64) -> bool {
    bits & 0x7ff0_0000_0000_0000u64 == 0x7ff0_0000_0000_0000u64 && bits
        & 0x000f_ffff_ffff_ffffu64 != 0
}

/// Whether the bits of an `f64` are a zero of either sign.
pub open spec fn is_zero_f64(bits: u64) -> bool {
    bits & 0x7fff_ffff_ffff_ffffu64 == 0
}

/// Whether two `f64`s, given by their bits, are equal as floats.
pub open spec fn f64_equal(left: u64, right: u64) -> bool {
    &&& !is_nan_f64(left)
    &&& !is_nan_f64(right)
    &&& (left == right || (is_zero_f64(left) && is_zero_f64(right)))
}

/// Carried `f32` equality is the float's own: a NaN equals nothing, not even
/// itself; every other number equals itself; the two zeros are equal; and
/// two equal numbers that are not zeros have the same bits, so a number
/// never equals its negation. It is also symmetric.
pub proof fn carried_f32_equality_is_float_equality(left: u32, right: u32)
    by (bit_vector)
    ensures
        (left & 0x7f80_0000u32 == 0x7f80_0000u32 && left & 0x007f_ffffu32 != 0) ==> (!f32_equal(
            left,
            right,
        ) && !f32_equal(right, left)),
        !(left & 0x7f80_0000u32 == 0x7f80_0000u32 && left & 0x007f_ffffu32 != 0) ==> f32_equal(
            left,
            left,
        ),
        f32_equal(0u32, 0x8000_0000u32),
        (f32_equal(left, right) && left != 0u32 && left != 0x8000_0000u32) ==> left == right,
        f32_equal(left, right) == f32_equal(right, left),
{
}

/// Carried `f64` equality is the float's own, in the same five ways as for
/// `f32`.
pub proof fn carried_f64_equality_is_float_equality(left: u64, right: u64)
    by (bit_vector)
    ensures
        (left & 0x7ff0_0000_0000_0000u64 == 0x7ff0_0000_0000_0000u64 && left
            & 0x000f_ffff_ffff_ffffu64 != 0) ==> (!f64_equal(left, right) && !f64_equal(
            right,
            left,
        )),
        !(left & 0x7ff0_0000_0000_0000u64 == 0x7ff0_0000_0000_0000u64 && left
            & 0x000f_ffff_ffff_ffffu64 != 0) ==> f64_equal(left, left),
        f64_equal(0u64, 0x8000_0000_0000_0000u64),
        (f64_equal(left, right) && left != 0u64 && left != 0x8000_0000_0000_0000u64) ==> left
            == right,
        f64_equal(left, right) == f64_equal(right, left),
{
}

/// An `f32`, as the bits `f32::to_bits` gives.
#[derive(Copy, Clone, Debug)]
pub struct F32Bits(pub u32);

/// An `f64`, as the bits `f64::to_bits` gives.
#[derive(Copy, Clone, Debug)]
pub struct F64Bits(pub u64);

impl PartialEq for F32Bits {
    /// Equal as floats are: never for a NaN, and `0.0` equals `-0.0`.
    fn eq(&self, other: &Self) -> (equal: bool) {
        let left = self.0;
        let right = other.0;
        let left_nan = left & 0x7f80_0000u32 == 0x7f80_0000u32 && left & 0x007f_ffffu32 != 0;
        let right_nan = right & 0x7f80_0000u32 == 0x7f80_0000u32 && right & 0x007f_ffffu32 != 0;
        !left_nan && !right_nan && (left == right || (left & 0x7fff_ffffu32 == 0 && right
            & 0x7fff_ffffu32 == 0))
    }
}

impl PartialEqSpecImpl for F32Bits {
    open spec fn obeys_eq_spec() -> bool {
        true
    }

    open spec fn eq_spec(&self, other: &Self) -> bool {
        f32_equal(self.0, other.0)
    }
}

impl PartialEq for F64Bits {
    /// Equal as floats are: never for a NaN, and `0.0` equals `-0.0`.
    fn eq(&self, other: &Self) -> (equal: bool) {
        let left = self.0;
        let right = other.0;
        let left_nan = left & 0x7ff0_0000_0000_0000u64 == 0x7ff0_0000_0000_0000u64 && left
            & 0x000f_ffff_ffff_ffffu64 != 0;
        let right_nan = right & 0x7ff0_0000_0000_0000u64 == 0x7ff0_0000_0000_0000u64 && right
            & 0x000f_ffff_ffff_ffffu64 != 0;
        !left_nan && !right_nan && (left == right || (left & 0x7fff_ffff_ffff_ffffu64 == 0
            && right & 0x7fff_ffff_ffff_ffffu64 == 0))
    }
}

impl PartialEqSpecImpl for F64Bits {
    open spec fn obeys_eq_spec() -> bool {
        true
    }

    open spec fn eq_spec(&self, other: &Self) -> bool {
        f64_equal(self.0, other.0)
    }
}

} // verus!
