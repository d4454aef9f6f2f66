//! Single-precision IEEE-754 scalars carried as `u32` bit patterns.
//!
//! Every coordinate in this crate is an IEEE-754 binary32 value, stored as
//! the `u32` holding its bit pattern. The arithmetic runs behind trusted
//! wrappers over `rustc_apfloat` (a bit-exact software implementation of
//! IEEE-754, rounding to nearest even, as hardware does by default) and
//! `libm` (a pure-Rust port of musl's math library, so its results are a
//! function of the argument bits alone). Each operation's result is named by
//! an uninterpreted spec function, so contracts can pin results down exactly
//! without restating floating-point semantics.

use vstd::prelude::*;
use rustc_apfloat::Float;
use rustc_apfloat::Round;
use rustc_apfloat::ieee::Single;

verus! {

/// Bit pattern of the binary32 value `2.0`.
pub const TWO_BITS: u32 = 0x4000_0000;

/// Bit pattern of the binary32 value `0.5`.
pub const HALF_BITS: u32 = 0x3F00_0000;

/// Names the result of binary32 addition on two bit patterns.
pub uninterp spec fn add_of(a: u32, b: u32) -> u32;

/// Names the result of binary32 subtraction on two bit patterns.
pub uninterp spec fn sub_of(a: u32, b: u32) -> u32;

/// Names the result of binary32 multiplication on two bit patterns.
pub uninterp spec fn mul_of(a: u32, b: u32) -> u32;

/// Names the result of binary32 division on two bit patterns.
pub uninterp spec fn div_of(a: u32, b: u32) -> u32;

/// Names the binary32 `<` comparison on two bit patterns (false whenever
/// either operand is a NaN).
pub uninterp spec fn lt_of(a: u32, b: u32) -> bool;

/// Names the binary32 value rounded toward negative infinity to an integral
/// value, still as a bit pattern.
pub uninterp spec fn floor_of(a: u32) -> u32;

/// Names the conversion of a binary32 bit pattern to `usize`, truncating
/// toward zero and clamping: NaN becomes zero, negative values become zero,
/// values beyond `usize::MAX` become `usize::MAX`.
pub uninterp spec fn usize_of(a: u32) -> usize;

/// Names the binary32 sine of a bit pattern (the angle is in radians).
pub uninterp spec fn sin_of(a: u32) -> u32;

/// Names the binary32 cosine of a bit pattern (the angle is in radians).
pub uninterp spec fn cos_of(a: u32) -> u32;

/// Names the binary32 square root of a bit pattern.
pub uninterp spec fn sqrt_of(a: u32) -> u32;

/// Negation of a binary32 value: IEEE-754 negation flips the sign bit and
/// nothing else, so it needs no trusted wrapper.
pub open spec fn neg_of(a: u32) -> u32 {
    a ^ 0x8000_0000u32
}

/// Flips the sign bit, which is exactly IEEE-754 negation.
pub(crate) fn neg_bits(a: u32) -> (r: u32)
    ensures
        r == neg_of(a),
{
    a ^ 0x8000_0000u32
}

/// Relies on `rustc_apfloat::ieee::Single`'s `Add`: IEEE-754 binary32
/// addition, round to nearest even, a pure function of the operand bits.
#[verifier::external_body]
pub(crate) fn add_bits(a: u32, b: u32) -> (r: u32)
    ensures
        r == add_of(a, b),
{
    (Single::from_bits(a as u128) + Single::from_bits(b as u128)).value.to_bits() as u32
}

/// Relies on `rustc_apfloat::ieee::Single`'s `Sub`: IEEE-754 binary32
/// subtraction, round to nearest even, a pure function of the operand bits.
#[verifier::external_body]
pub(crate) fn sub_bits(a: u32, b: u32) -> (r: u32)
    ensures
        r == sub_of(a, b),
{
    (Single::from_bits(a as u128) - Single::from_bits(b as u128)).value.to_bits() as u32
}

/// Relies on `rustc_apfloat::ieee::Single`'s `Mul`: IEEE-754 binary32
/// multiplication, round to nearest even, a pure function of the operand bits.
#[verifier::external_body]
pub(crate) fn mul_bits(a: u32, b: u32) -> (r: u32)
    ensures
        r == mul_of(a, b),
{
    (Single::from_bits(a as u128) * Single::from_bits(b as u128)).value.to_bits() as u32
}

/// Relies on `rustc_apfloat::ieee::Single`'s `Div`: IEEE-754 binary32
/// division, round to nearest even, a pure function of the operand bits.
#[verifier::external_body]
pub(crate) fn div_bits(a: u32, b: u32) -> (r: u32)
    ensures
        r == div_of(a, b),
{
    (Single::from_bits(a as u128) / Single::from_bits(b as u128)).value.to_bits() as u32
}

/// Relies on `rustc_apfloat::ieee::Single`'s `PartialOrd`: the IEEE-754 `<`
/// comparison, a pure function of the operand bits.
#[verifier::external_body]
pub(crate) fn lt_bits(a: u32, b: u32) -> (r: bool)
    ensures
        r == lt_of(a, b),
{
    Single::from_bits(a as u128) < Single::from_bits(b as u128)
}

/// Relies on `rustc_apfloat::Float::round_to_integral` with rounding toward
/// negative infinity: the IEEE-754 floor, a pure function of the operand bits.
#[verifier::external_body]
pub(crate) fn floor_bits(a: u32) -> (r: u32)
    ensures
        r == floor_of(a),
{
    Single::from_bits(a as u128).round_to_integral(Round::TowardNegative).value.to_bits() as u32
}

/// Relies on `rustc_apfloat::Float::to_u128`: conversion to an unsigned
/// integer, truncating toward zero, with NaN and out-of-range values clamped
/// to the nearest representable integer, a pure function of the operand bits.
#[verifier::external_body]
pub(crate) fn trunc_to_usize(a: u32) -> (r: usize)
    ensures
        r == usize_of(a),
{
    Single::from_bits(a as u128).to_u128(usize::BITS as usize).value as usize
}

/// Relies on `libm::sinf`: a pure-Rust binary32 sine whose result is a
/// function of the argument bits alone (`bytemuck::cast` only reinterprets
/// the bits as the argument type).
#[verifier::external_body]
pub(crate) fn sin_bits(a: u32) -> (r: u32)
    ensures
        r == sin_of(a),
{
    libm::sinf(bytemuck::cast(a)).to_bits()
}

/// Relies on `libm::cosf`: a pure-Rust binary32 cosine whose result is a
/// function of the argument bits alone (`bytemuck::cast` only reinterprets
/// the bits as the argument type).
#[verifier::external_body]
pub(crate) fn cos_bits(a: u32) -> (r: u32)
    ensures
        r == cos_of(a),
{
    libm::cosf(bytemuck::cast(a)).to_bits()
}

/// Relies on `libm::sqrtf`: the IEEE-754 binary32 square root, correctly
/// rounded and therefore a pure function of the argument bits.
#[verifier::external_body]
pub(crate) fn sqrt_bits(a: u32) -> (r: u32)
    ensures
        r == sqrt_of(a),
{
    libm::sqrtf(bytemuck::cast(a)).to_bits()
}

} // verus!
