//! IEEE-754 binary64 arithmetic on raw bit patterns.
//!
//! The verified code never holds a floating-point value: a double travels as
//! the `u64` bit pattern that encodes it.  The operations themselves are
//! performed by the `rustc_apfloat` soft-float library, which implements
//! IEEE-754 exactly; each operation is a pure function of the operand bit
//! patterns, so its result can be given a name that contracts build on.

use vstd::prelude::*;
use rustc_apfloat::Float;

verus! {

/// Outcome of a comparison.  A comparison of two doubles with a NaN on
/// either side is unordered and yields no outcome at all.
#[derive(Clone, Copy, PartialEq, Eq, Structural, Debug)]
pub enum CmpResult {
    Less,
    Equal,
    Greater,
}

/// The bit pattern of the IEEE-754 binary64 sum of the numbers `a` and `b` encode.
pub uninterp spec fn spec_f64_add(a: u64, b: u64) -> u64;

/// The bit pattern of the IEEE-754 binary64 difference of the numbers `a` and `b` encode.
pub uninterp spec fn spec_f64_sub(a: u64, b: u64) -> u64;

/// The bit pattern of the IEEE-754 binary64 product of the numbers `a` and `b` encode.
pub uninterp spec fn spec_f64_mul(a: u64, b: u64) -> u64;

/// The bit pattern of the IEEE-754 binary64 quotient of the numbers `a` and `b` encode.
pub uninterp spec fn spec_f64_div(a: u64, b: u64) -> u64;

/// The bit pattern of the C `fmod` remainder of the numbers `a` and `b` encode.
pub uninterp spec fn spec_f64_fmod(a: u64, b: u64) -> u64;

/// The IEEE-754 comparison of the numbers `a` and `b` encode; `None` when unordered.
pub uninterp spec fn spec_f64_cmp(a: u64, b: u64) -> Option<CmpResult>;

/// The bit pattern of `i` converted to the nearest IEEE-754 binary64 number.
pub uninterp spec fn spec_f64_of_i64(i: i64) -> u64;

/// The bit pattern of `u` converted to the nearest IEEE-754 binary64 number.
pub uninterp spec fn spec_f64_of_u64(u: u64) -> u64;

/// Relies on `rustc_apfloat::ieee::Double`'s `Add`: IEEE-754 binary64
/// addition, rounded to nearest even, a pure function of the two bit patterns.
#[verifier::external_body]
pub(crate) fn f64_add(a: u64, b: u64) -> (r: u64)
    ensures
        r == spec_f64_add(a, b),
{
    let x = rustc_apfloat::ieee::Double::from_bits(a as u128);
    let y = rustc_apfloat::ieee::Double::from_bits(b as u128);
    (x + y).value.to_bits() as u64
}

/// Relies on `rustc_apfloat::ieee::Double`'s `Sub`: IEEE-754 binary64
/// subtraction, rounded to nearest even.
#[verifier::external_body]
pub(crate) fn f64_sub(a: u64, b: u64) -> (r: u64)
    ensures
        r == spec_f64_sub(a, b),
{
    let x = rustc_apfloat::ieee::Double::from_bits(a as u128);
    let y = rustc_apfloat::ieee::Double::from_bits(b as u128);
    (x - y).value.to_bits() as u64
}

/// Relies on `rustc_apfloat::ieee::Double`'s `Mul`: IEEE-754 binary64
/// multiplication, rounded to nearest even.
#[verifier::external_body]
pub(crate) fn f64_mul(a: u64, b: u64) -> (r: u64)
    ensures
        r == spec_f64_mul(a, b),
{
    let x = rustc_apfloat::ieee::Double::from_bits(a as u128);
    let y = rustc_apfloat::ieee::Double::from_bits(b as u128);
    (x * y).value.to_bits() as u64
}

/// Relies on `rustc_apfloat::ieee::Double`'s `Div`: IEEE-754 binary64
/// division, rounded to nearest even.
#[verifier::external_body]
pub(crate) fn f64_div(a: u64, b: u64) -> (r: u64)
    ensures
        r == spec_f64_div(a, b),
{
    let x = rustc_apfloat::ieee::Double::from_bits(a as u128);
    let y = rustc_apfloat::ieee::Double::from_bits(b as u128);
    (x / y).value.to_bits() as u64
}

/// Relies on `rustc_apfloat::ieee::Double::c_fmod`: the remainder with the
/// sign of the dividend, as the C `fmod` and Rust's `%` on doubles compute it.
#[verifier::external_body]
pub(crate) fn f64_fmod(a: u64, b: u64) -> (r: u64)
    ensures
        r == spec_f64_fmod(a, b),
{
    let x = rustc_apfloat::ieee::Double::from_bits(a as u128);
    let y = rustc_apfloat::ieee::Double::from_bits(b as u128);
    x.c_fmod(y).value.to_bits() as u64
}

/// Relies on `rustc_apfloat::ieee::Double`'s `PartialOrd::partial_cmp`:
/// the IEEE-754 comparison, `None` exactly when an operand is a NaN, with
/// positive and negative zero comparing equal.
#[verifier::external_body]
pub(crate) fn f64_cmp(a: u64, b: u64) -> (r: Option<CmpResult>)
    ensures
        r == spec_f64_cmp(a, b),
{
    let x = rustc_apfloat::ieee::Double::from_bits(a as u128);
    let y = rustc_apfloat::ieee::Double::from_bits(b as u128);
    match x.partial_cmp(&y) {
        Some(core::cmp::Ordering::Less) => Some(CmpResult::Less),
        Some(core::cmp::Ordering::Equal) => Some(CmpResult::Equal),
        Some(core::cmp::Ordering::Greater) => Some(CmpResult::Greater),
        None => None,
    }
}

/// Relies on `rustc_apfloat::Float::from_i128`: conversion of a signed
/// integer to the nearest IEEE-754 binary64 number.
#[verifier::external_body]
pub(crate) fn f64_of_i64(i: i64) -> (r: u64)
    ensures
        r == spec_f64_of_i64(i),
{
    rustc_apfloat::ieee::Double::from_i128(i as i128).value.to_bits() as u64
}

/// Relies on `rustc_apfloat::Float::from_u128`: conversion of an unsigned
/// integer to the nearest IEEE-754 binary64 number.
#[verifier::external_body]
pub(crate) fn f64_of_u64(u: u64) -> (r: u64)
    ensures
        r == spec_f64_of_u64(u),
{
    rustc_apfloat::ieee::Double::from_u128(u as u128).value.to_bits() as u64
}

} // verus!
