//! Numeric primitives for the evaluator.
//!
//! Every value the engine computes is an IEEE-754 binary64 number, carried
//! around as its bit pattern in a `u64`. The arithmetic itself is performed
//! by `rustc_apfloat`, a software implementation of IEEE-754; what each
//! operation returns is given a name (`add_bits`, `lt_bits`, ...) that the
//! specifications treat as an opaque function of the operand bit patterns.
//! Operations whose behaviour is a short, exact function of the bits alone
//! (absolute value, the test against zero) are implemented and verified here
//! directly.

use rustc_apfloat::Float;
use vstd::prelude::*;

verus! {

/// Bit pattern of +0.0.
pub const BITS_ZERO: u64 = 0;

/// Bit pattern of 1.0.
pub const BITS_ONE: u64 = 0x3FF0_0000_0000_0000;

/// Bit pattern of positive infinity.
pub const BITS_POS_INF: u64 = 0x7FF0_0000_0000_0000;

/// Bit pattern of negative infinity.
pub const BITS_NEG_INF: u64 = 0xFFF0_0000_0000_0000;

/// Bit pattern of the absolute tolerance used by the `==` operator
/// (one ten-billionth, i.e. 1/10^10).
pub const BITS_TOLERANCE: u64 = 0x3DDB_7CDF_D9D7_BDBB;

/// Mask clearing the sign bit.
pub const BITS_ABS_MASK: u64 = 0x7FFF_FFFF_FFFF_FFFF;

/// The binary64 sum of the two operand bit patterns.
pub uninterp spec fn add_bits(a: u64, b: u64) -> u64;

/// The binary64 difference of the two operand bit patterns.
pub uninterp spec fn sub_bits(a: u64, b: u64) -> u64;

/// The binary64 product of the two operand bit patterns.
pub uninterp spec fn mul_bits(a: u64, b: u64) -> u64;

/// The binary64 quotient of the two operand bit patterns.
pub uninterp spec fn div_bits(a: u64, b: u64) -> u64;

/// The operand rounded to the nearest integral value, ties away from zero.
pub uninterp spec fn round_bits(a: u64) -> u64;

/// IEEE-754 `<` on the two operand bit patterns (false when either is NaN).
pub uninterp spec fn lt_bits(a: u64, b: u64) -> bool;

/// IEEE-754 `<=` on the two operand bit patterns (false when either is NaN).
pub uninterp spec fn le_bits(a: u64, b: u64) -> bool;

/// IEEE-754 `>` on the two operand bit patterns (false when either is NaN).
pub uninterp spec fn gt_bits(a: u64, b: u64) -> bool;

/// IEEE-754 `>=` on the two operand bit patterns (false when either is NaN).
pub uninterp spec fn ge_bits(a: u64, b: u64) -> bool;

/// Relies on `rustc_apfloat::ieee::Double`: `Add` is `add_r` with
/// round-to-nearest-even, the IEEE-754 binary64 sum.
#[verifier::external_body]
pub(crate) fn fadd(a: u64, b: u64) -> (r: u64)
    ensures
        r == add_bits(a, b),
{
    let x = rustc_apfloat::ieee::Double::from_bits(a as u128);
    let y = rustc_apfloat::ieee::Double::from_bits(b as u128);
    (x + y).value.to_bits() as u64
}

/// Relies on `rustc_apfloat::ieee::Double`: `Sub` is `sub_r` with
/// round-to-nearest-even, the IEEE-754 binary64 difference.
#[verifier::external_body]
pub(crate) fn fsub(a: u64, b: u64) -> (r: u64)
    ensures
        r == sub_bits(a, b),
{
    let x = rustc_apfloat::ieee::Double::from_bits(a as u128);
    let y = rustc_apfloat::ieee::Double::from_bits(b as u128);
    (x - y).value.to_bits() as u64
}

/// Relies on `rustc_apfloat::ieee::Double`: `Mul` is `mul_r` with
/// round-to-nearest-even, the IEEE-754 binary64 product.
#[verifier::external_body]
pub(crate) fn fmul(a: u64, b: u64) -> (r: u64)
    ensures
        r == mul_bits(a, b),
{
    let x = rustc_apfloat::ieee::Double::from_bits(a as u128);
    let y = rustc_apfloat::ieee::Double::from_bits(b as u128);
    (x * y).value.to_bits() as u64
}

/// Relies on `rustc_apfloat::ieee::Double`: `Div` is `div_r` with
/// round-to-nearest-even, the IEEE-754 binary64 quotient.
#[verifier::external_body]
pub(crate) fn fdiv(a: u64, b: u64) -> (r: u64)
    ensures
        r == div_bits(a, b),
{
    let x = rustc_apfloat::ieee::Double::from_bits(a as u128);
    let y = rustc_apfloat::ieee::Double::from_bits(b as u128);
    (x / y).value.to_bits() as u64
}

/// Relies on `rustc_apfloat::Float::round_to_integral` with
/// `Round::NearestTiesToAway`: rounds to the nearest integral value,
/// ties away from zero.
#[verifier::external_body]
pub(crate) fn fround(a: u64) -> (r: u64)
    ensures
        r == round_bits(a),
{
    let x = rustc_apfloat::ieee::Double::from_bits(a as u128);
    x.round_to_integral(rustc_apfloat::Round::NearestTiesToAway).value.to_bits() as u64
}

/// Relies on `PartialOrd for rustc_apfloat::ieee::IeeeFloat`: IEEE-754
/// ordering, in which NaN compares to nothing and -0.0 equals +0.0.
#[verifier::external_body]
pub(crate) fn flt(a: u64, b: u64) -> (r: bool)
    ensures
        r == lt_bits(a, b),
{
    rustc_apfloat::ieee::Double::from_bits(a as u128)
        < rustc_apfloat::ieee::Double::from_bits(b as u128)
}

/// Relies on `PartialOrd for rustc_apfloat::ieee::IeeeFloat`: IEEE-754
/// ordering, in which NaN compares to nothing and -0.0 equals +0.0.
#[verifier::external_body]
pub(crate) fn fle(a: u64, b: u64) -> (r: bool)
    ensures
        r == le_bits(a, b),
{
    rustc_apfloat::ieee::Double::from_bits(a as u128)
        <= rustc_apfloat::ieee::Double::from_bits(b as u128)
}

/// Relies on `PartialOrd for rustc_apfloat::ieee::IeeeFloat`: IEEE-754
/// ordering, in which NaN compares to nothing and -0.0 equals +0.0.
#[verifier::external_body]
pub(crate) fn fgt(a: u64, b: u64) -> (r: bool)
    ensures
        r == gt_bits(a, b),
{
    rustc_apfloat::ieee::Double::from_bits(a as u128)
        > rustc_apfloat::ieee::Double::from_bits(b as u128)
}

/// Relies on `PartialOrd for rustc_apfloat::ieee::IeeeFloat`: IEEE-754
/// ordering, in which NaN compares to nothing and -0.0 equals +0.0.
#[verifier::external_body]
pub(crate) fn fge(a: u64, b: u64) -> (r: bool)
    ensures
        r == ge_bits(a, b),
{
    rustc_apfloat::ieee::Double::from_bits(a as u128)
        >= rustc_apfloat::ieee::Double::from_bits(b as u128)
}

/// A bit pattern denotes zero exactly when everything but the sign bit is
/// clear: +0.0 or -0.0. NaN and every nonzero number fail this test, which
/// is how `x != 0.0` behaves on binary64 values.
pub open spec fn is_zero_bits(a: u64) -> bool {
    a & BITS_ABS_MASK == 0
}

/// A bit pattern denotes NaN exactly when, with the sign bit cleared, it
/// lies strictly above the infinity pattern.
pub open spec fn is_nan_bits(a: u64) -> bool {
    a & BITS_ABS_MASK > BITS_POS_INF
}

/// Absolute value on binary64 is exactly clearing the sign bit.
pub open spec fn abs_bits(a: u64) -> u64 {
    a & BITS_ABS_MASK
}

/// 1.0 for true, 0.0 for false: how comparison results become numbers.
pub open spec fn bool_bits(b: bool) -> u64 {
    if b {
        BITS_ONE
    } else {
        BITS_ZERO
    }
}

/// The smaller of two binary64 values, a NaN operand losing to the other,
/// mirroring the `minNum` operation that numeric libraries call `fmin`.
pub open spec fn min2_bits(a: u64, b: u64) -> u64 {
    if is_nan_bits(a) {
        b
    } else if is_nan_bits(b) {
        a
    } else if lt_bits(b, a) {
        b
    } else {
        a
    }
}

/// The larger of two binary64 values, a NaN operand losing to the other,
/// mirroring the `maxNum` operation that numeric libraries call `fmax`.
pub open spec fn max2_bits(a: u64, b: u64) -> u64 {
    if is_nan_bits(a) {
        b
    } else if is_nan_bits(b) {
        a
    } else if gt_bits(b, a) {
        b
    } else {
        a
    }
}

/// Tolerant equality: the magnitude of the difference lies strictly below
/// the tolerance.
pub open spec fn approx_eq_bits(a: u64, b: u64) -> bool {
    lt_bits(abs_bits(sub_bits(a, b)), BITS_TOLERANCE)
}

/// Executable test against zero; see `is_zero_bits`.
pub fn fis_zero(a: u64) -> (r: bool)
    ensures
        r == is_zero_bits(a),
{
    a & BITS_ABS_MASK == 0
}

/// Executable NaN test; see `is_nan_bits`.
pub fn fis_nan(a: u64) -> (r: bool)
    ensures
        r == is_nan_bits(a),
{
    a & BITS_ABS_MASK > BITS_POS_INF
}

/// Executable absolute value; see `abs_bits`.
pub fn fabs(a: u64) -> (r: u64)
    ensures
        r == abs_bits(a),
{
    a & BITS_ABS_MASK
}

/// Executable two-operand minimum; see `min2_bits`.
pub fn fmin2(a: u64, b: u64) -> (r: u64)
    ensures
        r == min2_bits(a, b),
{
    if fis_nan(a) {
        b
    } else if fis_nan(b) {
        a
    } else if flt(b, a) {
        b
    } else {
        a
    }
}

/// Executable two-operand maximum; see `max2_bits`.
pub fn fmax2(a: u64, b: u64) -> (r: u64)
    ensures
        r == max2_bits(a, b),
{
    if fis_nan(a) {
        b
    } else if fis_nan(b) {
        a
    } else if fgt(b, a) {
        b
    } else {
        a
    }
}

/// Executable tolerant equality; see `approx_eq_bits`.
pub fn fapprox_eq(a: u64, b: u64) -> (r: bool)
    ensures
        r == approx_eq_bits(a, b),
{
    flt(fabs(fsub(a, b)), BITS_TOLERANCE)
}

} // verus!
