//! IEEE-754 binary64 arithmetic on bit patterns.
//!
//! The verified code never holds a floating-point value: a double travels as
//! the `u64` bit pattern of its in-memory format. Each arithmetic operation is
//! a deterministic function of the operand bit patterns, so its result is
//! given a name (an uninterpreted spec function) and computed by a thin
//! trusted wrapper around the software floating-point crate `rustc_apfloat`.

use vstd::prelude::*;
use rustc_apfloat::Float;
use rustc_apfloat::ieee::Double;

verus! {

/// Bit pattern of the double `1.0`.
pub const ONE_BITS: u64 = 0x3FF0_0000_0000_0000;

/// Bit pattern of the IEEE-754 binary64 sum, rounded to nearest even, of the
/// doubles with bit patterns `a` and `b`.
pub uninterp spec fn double_add(a: u64, b: u64) -> u64;

/// Bit pattern of the IEEE-754 binary64 difference of the doubles with bit
/// patterns `a` and `b`.
pub uninterp spec fn double_sub(a: u64, b: u64) -> u64;

/// Bit pattern of the IEEE-754 binary64 product of the doubles with bit
/// patterns `a` and `b`.
pub uninterp spec fn double_mul(a: u64, b: u64) -> u64;

/// Bit pattern of the IEEE-754 binary64 quotient of the doubles with bit
/// patterns `a` and `b`.
pub uninterp spec fn double_div(a: u64, b: u64) -> u64;

/// Bit pattern of the double nearest to the integer `n`.
pub uninterp spec fn double_from_u64(n: u64) -> u64;

/// Relies on `rustc_apfloat::ieee::Double`'s `core::ops::Add` impl
/// (`Float::add_r` with round-to-nearest-even): the IEEE-754 binary64 sum of
/// the doubles whose bit patterns are `a` and `b`, a function of the two bit
/// patterns alone.
#[verifier::external_body]
pub(crate) fn add_bits(a: u64, b: u64) -> (r: u64)
    ensures
        r == double_add(a, b),
{
    let x = Double::from_bits(a as u128);
    let y = Double::from_bits(b as u128);
    (x + y).value.to_bits() as u64
}

/// Relies on `rustc_apfloat::ieee::Double`'s `core::ops::Sub` impl
/// (`Float::sub_r` with round-to-nearest-even): the IEEE-754 binary64
/// difference of the doubles whose bit patterns are `a` and `b`, a function
/// of the two bit patterns alone.
#[verifier::external_body]
pub(crate) fn sub_bits(a: u64, b: u64) -> (r: u64)
    ensures
        r == double_sub(a, b),
{
    let x = Double::from_bits(a as u128);
    let y = Double::from_bits(b as u128);
    (x - y).value.to_bits() as u64
}

/// Relies on `rustc_apfloat::ieee::Double`'s `core::ops::Mul` impl
/// (`Float::mul_r` with round-to-nearest-even): the IEEE-754 binary64 product
/// of the doubles whose bit patterns are `a` and `b`, a function of the two
/// bit patterns alone.
#[verifier::external_body]
pub(crate) fn mul_bits(a: u64, b: u64) -> (r: u64)
    ensures
        r == double_mul(a, b),
{
    let x = Double::from_bits(a as u128);
    let y = Double::from_bits(b as u128);
    (x * y).value.to_bits() as u64
}

/// Relies on `rustc_apfloat::ieee::Double`'s `core::ops::Div` impl
/// (`Float::div_r` with round-to-nearest-even): the IEEE-754 binary64
/// quotient of the doubles whose bit patterns are `a` and `b`, a function of
/// the two bit patterns alone.
#[verifier::external_body]
pub(crate) fn div_bits(a: u64, b: u64) -> (r: u64)
    ensures
        r == double_div(a, b),
{
    let x = Double::from_bits(a as u128);
    let y = Double::from_bits(b as u128);
    (x / y).value.to_bits() as u64
}

/// Relies on `rustc_apfloat::Float::from_u128` (round-to-nearest-even): the
/// double nearest to the integer `n`, a function of `n` alone.
#[verifier::external_body]
pub(crate) fn u64_to_double_bits(n: u64) -> (r: u64)
    ensures
        r == double_from_u64(n),
{
    Double::from_u128(n as u128).value.to_bits() as u64
}

} // verus!
