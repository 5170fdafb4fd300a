//! IEEE 754 binary64 numbers as 64-bit patterns.
//!
//! A number is stored as the `u64` that `to_bits` would give for it. The
//! rounded operations are carried out by `rustc_apfloat`, a software
//! implementation of IEEE 754; their results are named here, not defined,
//! and the rest of the crate states what it computes in terms of those names.
//! What can be read off a pattern without rounding (its sign, its distance
//! from zero, how two of them are ordered) is defined and computed here.

use rustc_apfloat::ieee::Double;
use rustc_apfloat::{Float, Round};
use vstd::prelude::*;

verus! {

/// The pattern of `+0.0`.
pub const ZERO: u64 = 0;

/// The pattern of `-0.0`: the sign bit alone.
pub const SIGN: u64 = 0x8000_0000_0000_0000;

/// The pattern of `0.5`.
pub const HALF: u64 = 0x3FE0_0000_0000_0000;

/// The pattern of `1.0`.
pub const ONE: u64 = 0x3FF0_0000_0000_0000;

/// The pattern of `2.0`.
pub const TWO: u64 = 0x4000_0000_0000_0000;

/// The pattern of `2.5`.
pub const FIVE_HALVES: u64 = 0x4004_0000_0000_0000;

/// The pattern of `3.0`.
pub const THREE: u64 = 0x4008_0000_0000_0000;

/// The pattern of `4.0`.
pub const FOUR: u64 = 0x4010_0000_0000_0000;

/// The pattern of the binary64 nearest to pi.
pub const PI: u64 = 0x4009_21FB_5444_2D18;

/// The pattern with the sign bit taken off: the distance of `x` from zero.
pub open spec fn magnitude(x: u64) -> u64 {
    if x < SIGN {
        x
    } else {
        (x - SIGN) as u64
    }
}

/// The pattern with the sign bit flipped: `-x`.
pub open spec fn negated(x: u64) -> u64 {
    if x < SIGN {
        (x + SIGN) as u64
    } else {
        (x - SIGN) as u64
    }
}

/// Whether `x` is a number with `-bound <= x < bound`, for a `bound` that is
/// positive and finite.
///
/// Patterns with the sign bit clear are ordered as the numbers they stand
/// for, and so are the magnitudes of patterns with the sign bit set. Every
/// NaN has a magnitude above that of any finite number and is therefore out
/// of range.
pub open spec fn within(x: u64, bound: u64) -> bool {
    if x < SIGN {
        x < bound
    } else {
        magnitude(x) <= bound
    }
}

/// The distance of `x` from zero.
pub fn abs(x: u64) -> (distance: u64)
    ensures
        distance == magnitude(x),
{
    if x < SIGN {
        x
    } else {
        x - SIGN
    }
}

/// `-x`.
pub fn neg(x: u64) -> (opposite: u64)
    ensures
        opposite == negated(x),
{
    if x < SIGN {
        x + SIGN
    } else {
        x - SIGN
    }
}

/// Tests `-bound <= x < bound`.
pub fn is_within(x: u64, bound: u64) -> (inside: bool)
    ensures
        inside == within(x, bound),
{
    if x < SIGN {
        x < bound
    } else {
        abs(x) <= bound
    }
}

/// The binary64 nearest to `a + b`, ties to even, as a pattern.
pub uninterp spec fn rounded_sum(a: u64, b: u64) -> u64;

/// The binary64 nearest to `a * b`, ties to even, as a pattern.
pub uninterp spec fn rounded_product(a: u64, b: u64) -> u64;

/// The binary64 nearest to `a / b`, ties to even, as a pattern.
pub uninterp spec fn rounded_quotient(a: u64, b: u64) -> u64;

/// The binary64 nearest to the whole number `n`, ties to even, as a pattern.
pub uninterp spec fn rounded_count(n: u64) -> u64;

/// Adds two numbers.
///
/// Trusted: the body is `rustc_apfloat::Float::add_r` on `ieee::Double` with
/// `Round::NearestTiesToEven`, between `from_bits` and `to_bits`. The contract
/// claims only that the pattern returned is a function of the two patterns
/// given, which it calls `rounded_sum`.
#[verifier::external_body]
pub(crate) fn sum(a: u64, b: u64) -> (r: u64)
    ensures
        r == rounded_sum(a, b),
{
    let x = Double::from_bits(a as u128);
    let y = Double::from_bits(b as u128);
    x.add_r(y, Round::NearestTiesToEven).value.to_bits() as u64
}

/// Multiplies two numbers.
///
/// Trusted: the body is `rustc_apfloat::Float::mul_r` on `ieee::Double` with
/// `Round::NearestTiesToEven`, between `from_bits` and `to_bits`. The contract
/// claims only that the pattern returned is a function of the two patterns
/// given, which it calls `rounded_product`.
#[verifier::external_body]
pub(crate) fn product(a: u64, b: u64) -> (r: u64)
    ensures
        r == rounded_product(a, b),
{
    let x = Double::from_bits(a as u128);
    let y = Double::from_bits(b as u128);
    x.mul_r(y, Round::NearestTiesToEven).value.to_bits() as u64
}

/// Divides `a` by `b`. Division by zero gives an infinity or a NaN, as
/// IEEE 754 has it.
///
/// Trusted: the body is `rustc_apfloat::Float::div_r` on `ieee::Double` with
/// `Round::NearestTiesToEven`, between `from_bits` and `to_bits`. The contract
/// claims only that the pattern returned is a function of the two patterns
/// given, which it calls `rounded_quotient`.
#[verifier::external_body]
pub(crate) fn quotient(a: u64, b: u64) -> (r: u64)
    ensures
        r == rounded_quotient(a, b),
{
    let x = Double::from_bits(a as u128);
    let y = Double::from_bits(b as u128);
    x.div_r(y, Round::NearestTiesToEven).value.to_bits() as u64
}

/// The number nearest to a count.
///
/// Trusted: the body is `rustc_apfloat::Float::from_u128_r` on
/// `ieee::Double` with `Round::NearestTiesToEven`, followed by `to_bits`. The
/// contract claims only that the pattern returned is a function of the
/// count, which it calls `rounded_count`.
#[verifier::external_body]
pub(crate) fn from_count(n: u64) -> (r: u64)
    ensures
        r == rounded_count(n),
{
    Double::from_u128_r(n as u128, Round::NearestTiesToEven).value.to_bits() as u64
}

} // verus!
