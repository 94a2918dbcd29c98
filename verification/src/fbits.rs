use vstd::prelude::*;

verus! {

/// Bit pattern of the IEEE-754 double -1.0e6, the out-of-band marker for
/// "no reading present this row". The only double equal to -1.0e6 is the one
/// with exactly this pattern, so equality of readings with the marker is
/// equality of bit patterns.
pub const SENTINEL_BITS: u64 = 0xC12E_8480_0000_0000;

/// Bit pattern of the double 0.5.
pub const HALF_BITS: u64 = 0x3FE0_0000_0000_0000;

/// Bit pattern of the double 1.0.
pub const ONE_BITS: u64 = 0x3FF0_0000_0000_0000;

/// Bit pattern of the double 2.1, the front delay-line propagation divisor.
pub const FRONT_DIVISOR_BITS: u64 = 0x4000_CCCC_CCCC_CCCD;

/// Bit pattern of the double 1.98, the back delay-line propagation divisor.
pub const BACK_DIVISOR_BITS: u64 = 0x3FFF_AE14_7AE1_47AE;

/// Bit pattern of the double 36.0, the focal-plane separation used for the
/// angle estimate.
pub const ANGLE_DIVISOR_BITS: u64 = 0x4042_0000_0000_0000;

/// Bit pattern of the double closest to pi.
pub const PI_BITS: u64 = 0x4009_21FB_5444_2D18;

/// Bits of the IEEE-754 double sum of the doubles with the given bits,
/// rounded to nearest, ties to even.
pub uninterp spec fn f_add(a: u64, b: u64) -> u64;

/// Bits of the IEEE-754 double difference of the doubles with the given bits.
pub uninterp spec fn f_sub(a: u64, b: u64) -> u64;

/// Bits of the IEEE-754 double product of the doubles with the given bits.
pub uninterp spec fn f_mul(a: u64, b: u64) -> u64;

/// Bits of the IEEE-754 double quotient of the doubles with the given bits.
pub uninterp spec fn f_div(a: u64, b: u64) -> u64;

/// Relies on rustc_apfloat's `Double` addition (`IeeeFloat::add_r`, rounding
/// to nearest, ties to even): the result depends on the operand bits alone.
#[verifier::external_body]
pub(crate) fn fadd(a: u64, b: u64) -> (r: u64)
    ensures
        r == f_add(a, b),
{
    let x = <rustc_apfloat::ieee::Double as rustc_apfloat::Float>::from_bits(a as u128);
    let y = <rustc_apfloat::ieee::Double as rustc_apfloat::Float>::from_bits(b as u128);
    rustc_apfloat::Float::to_bits((x + y).value) as u64
}

/// Relies on rustc_apfloat's `Double` subtraction (`IeeeFloat::sub_r`,
/// rounding to nearest, ties to even): the result depends on the operand
/// bits alone.
#[verifier::external_body]
pub(crate) fn fsub(a: u64, b: u64) -> (r: u64)
    ensures
        r == f_sub(a, b),
{
    let x = <rustc_apfloat::ieee::Double as rustc_apfloat::Float>::from_bits(a as u128);
    let y = <rustc_apfloat::ieee::Double as rustc_apfloat::Float>::from_bits(b as u128);
    rustc_apfloat::Float::to_bits((x - y).value) as u64
}

/// Relies on rustc_apfloat's `Double` multiplication (`IeeeFloat::mul_r`,
/// rounding to nearest, ties to even): the result depends on the operand
/// bits alone.
#[verifier::external_body]
pub(crate) fn fmul(a: u64, b: u64) -> (r: u64)
    ensures
        r == f_mul(a, b),
{
    let x = <rustc_apfloat::ieee::Double as rustc_apfloat::Float>::from_bits(a as u128);
    let y = <rustc_apfloat::ieee::Double as rustc_apfloat::Float>::from_bits(b as u128);
    rustc_apfloat::Float::to_bits((x * y).value) as u64
}

/// Relies on rustc_apfloat's `Double` division (`IeeeFloat::div_r`, rounding
/// to nearest, ties to even): the result depends on the operand bits alone.
#[verifier::external_body]
pub(crate) fn fdiv(a: u64, b: u64) -> (r: u64)
    ensures
        r == f_div(a, b),
{
    let x = <rustc_apfloat::ieee::Double as rustc_apfloat::Float>::from_bits(a as u128);
    let y = <rustc_apfloat::ieee::Double as rustc_apfloat::Float>::from_bits(b as u128);
    rustc_apfloat::Float::to_bits((x / y).value) as u64
}

/// An IEEE-754 double is strictly greater than zero exactly when its sign bit
/// is clear, its magnitude is not zero, and it is not a NaN: the patterns
/// from 0x1 (smallest positive subnormal) up to 0x7FF0_0000_0000_0000
/// (positive infinity).
pub open spec fn dbl_gt_zero(b: u64) -> bool {
    1 <= b <= 0x7FF0_0000_0000_0000
}

/// An IEEE-754 double is strictly less than zero exactly when its sign bit is
/// set, its magnitude is not zero, and it is not a NaN: the patterns from
/// 0x8000_0000_0000_0001 (smallest negative subnormal) up to
/// 0xFFF0_0000_0000_0000 (negative infinity).
pub open spec fn dbl_lt_zero(b: u64) -> bool {
    0x8000_0000_0000_0001 <= b <= 0xFFF0_0000_0000_0000
}

pub(crate) fn is_gt_zero(b: u64) -> (r: bool)
    ensures
        r == dbl_gt_zero(b),
{
    1 <= b && b <= 0x7FF0_0000_0000_0000
}

pub(crate) fn is_lt_zero(b: u64) -> (r: bool)
    ensures
        r == dbl_lt_zero(b),
{
    0x8000_0000_0000_0001 <= b && b <= 0xFFF0_0000_0000_0000
}

} // verus!
