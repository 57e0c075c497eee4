//! Floating-point arithmetic on bit patterns.
//!
//! The reduction algorithm needs a handful of IEEE 754 operations: fmod,
//! subtraction, multiplication, addition, division, integer conversion with
//! rounding, and conversion from a sample count. They are performed by
//! `rustc_apfloat`, a software IEEE 754 implementation that works directly
//! on bit patterns, so results are identical on every machine. Each
//! operation's result is named by an uninterpreted spec function; everything
//! around these calls is verified against those names.

use vstd::prelude::*;

use rustc_apfloat::Float;
use rustc_apfloat::Round;
use rustc_apfloat::ieee::Double;
use rustc_apfloat::ieee::Single;

use crate::bits::Precision;

verus! {

pub uninterp spec fn single_rem(a: u32, b: u32) -> u32;

pub uninterp spec fn double_rem(a: u64, b: u64) -> u64;

pub uninterp spec fn single_sub(a: u32, b: u32) -> u32;

pub uninterp spec fn double_sub(a: u64, b: u64) -> u64;

pub uninterp spec fn single_mul(a: u32, b: u32) -> u32;

pub uninterp spec fn double_mul(a: u64, b: u64) -> u64;

pub uninterp spec fn single_add(a: u32, b: u32) -> u32;

pub uninterp spec fn double_add(a: u64, b: u64) -> u64;

pub uninterp spec fn single_div(a: u32, b: u32) -> u32;

pub uninterp spec fn double_div(a: u64, b: u64) -> u64;

pub uninterp spec fn single_round_uint(a: u32) -> u64;

pub uninterp spec fn double_round_uint(a: u64) -> u64;

pub uninterp spec fn single_from_count(n: usize) -> u32;

pub uninterp spec fn double_from_count(n: usize) -> u64;

/// Relies on rustc_apfloat's `%` on `ieee::Single` (`c_fmod`, the fmod that
/// hardware `%` performs), a pure function of the two bit patterns.
#[verifier::external_body]
fn single_rem_exec(a: u32, b: u32) -> (r: u32)
    ensures
        r == single_rem(a, b),
{
    let x = Single::from_bits(a as u128);
    let y = Single::from_bits(b as u128);
    (x % y).value.to_bits() as u32
}

/// Relies on rustc_apfloat's `%` on `ieee::Double` (`c_fmod`, the fmod that
/// hardware `%` performs), a pure function of the two bit patterns.
#[verifier::external_body]
fn double_rem_exec(a: u64, b: u64) -> (r: u64)
    ensures
        r == double_rem(a, b),
{
    let x = Double::from_bits(a as u128);
    let y = Double::from_bits(b as u128);
    (x % y).value.to_bits() as u64
}

/// Relies on rustc_apfloat's `-` on `ieee::Single` (correctly rounded IEEE
/// subtraction, round to nearest even), a pure function of the bit patterns.
#[verifier::external_body]
fn single_sub_exec(a: u32, b: u32) -> (r: u32)
    ensures
        r == single_sub(a, b),
{
    let x = Single::from_bits(a as u128);
    let y = Single::from_bits(b as u128);
    (x - y).value.to_bits() as u32
}

/// Relies on rustc_apfloat's `-` on `ieee::Double` (correctly rounded IEEE
/// subtraction, round to nearest even), a pure function of the bit patterns.
#[verifier::external_body]
fn double_sub_exec(a: u64, b: u64) -> (r: u64)
    ensures
        r == double_sub(a, b),
{
    let x = Double::from_bits(a as u128);
    let y = Double::from_bits(b as u128);
    (x - y).value.to_bits() as u64
}

/// Relies on rustc_apfloat's `*` on `ieee::Single` (correctly rounded IEEE
/// multiplication, round to nearest even), a pure function of the bit patterns.
#[verifier::external_body]
fn single_mul_exec(a: u32, b: u32) -> (r: u32)
    ensures
        r == single_mul(a, b),
{
    let x = Single::from_bits(a as u128);
    let y = Single::from_bits(b as u128);
    (x * y).value.to_bits() as u32
}

/// Relies on rustc_apfloat's `*` on `ieee::Double` (correctly rounded IEEE
/// multiplication, round to nearest even), a pure function of the bit patterns.
#[verifier::external_body]
fn double_mul_exec(a: u64, b: u64) -> (r: u64)
    ensures
        r == double_mul(a, b),
{
    let x = Double::from_bits(a as u128);
    let y = Double::from_bits(b as u128);
    (x * y).value.to_bits() as u64
}

/// Relies on rustc_apfloat's `+` on `ieee::Single` (correctly rounded IEEE
/// addition, round to nearest even), a pure function of the bit patterns.
#[verifier::external_body]
fn single_add_exec(a: u32, b: u32) -> (r: u32)
    ensures
        r == single_add(a, b),
{
    let x = Single::from_bits(a as u128);
    let y = Single::from_bits(b as u128);
    (x + y).value.to_bits() as u32
}

/// Relies on rustc_apfloat's `+` on `ieee::Double` (correctly rounded IEEE
/// addition, round to nearest even), a pure function of the bit patterns.
#[verifier::external_body]
fn double_add_exec(a: u64, b: u64) -> (r: u64)
    ensures
        r == double_add(a, b),
{
    let x = Double::from_bits(a as u128);
    let y = Double::from_bits(b as u128);
    (x + y).value.to_bits() as u64
}

/// Relies on rustc_apfloat's `/` on `ieee::Single` (correctly rounded IEEE
/// division, round to nearest even; division by zero gives an infinity or
/// NaN by the usual IEEE rules), a pure function of the bit patterns.
#[verifier::external_body]
fn single_div_exec(a: u32, b: u32) -> (r: u32)
    ensures
        r == single_div(a, b),
{
    let x = Single::from_bits(a as u128);
    let y = Single::from_bits(b as u128);
    (x / y).value.to_bits() as u32
}

/// Relies on rustc_apfloat's `/` on `ieee::Double` (correctly rounded IEEE
/// division, round to nearest even; division by zero gives an infinity or
/// NaN by the usual IEEE rules), a pure function of the bit patterns.
#[verifier::external_body]
fn double_div_exec(a: u64, b: u64) -> (r: u64)
    ensures
        r == double_div(a, b),
{
    let x = Double::from_bits(a as u128);
    let y = Double::from_bits(b as u128);
    (x / y).value.to_bits() as u64
}

/// Relies on rustc_apfloat's `to_u128_r` on `ieee::Single`: conversion to an
/// unsigned 64-bit integer, rounding to the nearest with ties away from
/// zero; out-of-range inputs give deterministic clamped values.
#[verifier::external_body]
fn single_round_uint_exec(a: u32) -> (r: u64)
    ensures
        r == single_round_uint(a),
{
    let x = Single::from_bits(a as u128);
    let mut exact = false;
    x.to_u128_r(64, Round::NearestTiesToAway, &mut exact).value as u64
}

/// Relies on rustc_apfloat's `to_u128_r` on `ieee::Double`: conversion to an
/// unsigned 64-bit integer, rounding to the nearest with ties away from
/// zero; out-of-range inputs give deterministic clamped values.
#[verifier::external_body]
fn double_round_uint_exec(a: u64) -> (r: u64)
    ensures
        r == double_round_uint(a),
{
    let x = Double::from_bits(a as u128);
    let mut exact = false;
    x.to_u128_r(64, Round::NearestTiesToAway, &mut exact).value as u64
}

/// Relies on rustc_apfloat's `from_u128` on `ieee::Single`: conversion of an
/// unsigned integer to the nearest single value, ties to even.
#[verifier::external_body]
fn single_from_count_exec(n: usize) -> (r: u32)
    ensures
        r == single_from_count(n),
{
    Single::from_u128(n as u128).value.to_bits() as u32
}

/// Relies on rustc_apfloat's `from_u128` on `ieee::Double`: conversion of an
/// unsigned integer to the nearest double value, ties to even.
#[verifier::external_body]
fn double_from_count_exec(n: usize) -> (r: u64)
    ensures
        r == double_from_count(n),
{
    Double::from_u128(n as u128).value.to_bits() as u64
}

/// fmod at width `p`; single patterns live in the low 32 bits.
pub open spec fn spec_rem(p: Precision, a: u64, b: u64) -> u64 {
    match p {
        Precision::Single => single_rem(a as u32, b as u32) as u64,
        Precision::Double => double_rem(a, b),
    }
}

/// Subtraction at width `p`.
pub open spec fn spec_sub(p: Precision, a: u64, b: u64) -> u64 {
    match p {
        Precision::Single => single_sub(a as u32, b as u32) as u64,
        Precision::Double => double_sub(a, b),
    }
}

/// Multiplication at width `p`.
pub open spec fn spec_mul(p: Precision, a: u64, b: u64) -> u64 {
    match p {
        Precision::Single => single_mul(a as u32, b as u32) as u64,
        Precision::Double => double_mul(a, b),
    }
}

/// Addition at width `p`.
pub open spec fn spec_add(p: Precision, a: u64, b: u64) -> u64 {
    match p {
        Precision::Single => single_add(a as u32, b as u32) as u64,
        Precision::Double => double_add(a, b),
    }
}

/// Division at width `p`.
pub open spec fn spec_div(p: Precision, a: u64, b: u64) -> u64 {
    match p {
        Precision::Single => single_div(a as u32, b as u32) as u64,
        Precision::Double => double_div(a, b),
    }
}

/// Rounding conversion to an unsigned integer at width `p`.
pub open spec fn spec_round_uint(p: Precision, a: u64) -> u64 {
    match p {
        Precision::Single => single_round_uint(a as u32),
        Precision::Double => double_round_uint(a),
    }
}

/// Conversion of a sample count to a value at width `p`.
pub open spec fn spec_from_count(p: Precision, n: usize) -> u64 {
    match p {
        Precision::Single => single_from_count(n) as u64,
        Precision::Double => double_from_count(n),
    }
}

pub fn float_rem(p: Precision, a: u64, b: u64) -> (r: u64)
    ensures
        r == spec_rem(p, a, b),
{
    match p {
        Precision::Single => single_rem_exec(a as u32, b as u32) as u64,
        Precision::Double => double_rem_exec(a, b),
    }
}

pub fn float_sub(p: Precision, a: u64, b: u64) -> (r: u64)
    ensures
        r == spec_sub(p, a, b),
{
    match p {
        Precision::Single => single_sub_exec(a as u32, b as u32) as u64,
        Precision::Double => double_sub_exec(a, b),
    }
}

pub fn float_mul(p: Precision, a: u64, b: u64) -> (r: u64)
    ensures
        r == spec_mul(p, a, b),
{
    match p {
        Precision::Single => single_mul_exec(a as u32, b as u32) as u64,
        Precision::Double => double_mul_exec(a, b),
    }
}

pub fn float_add(p: Precision, a: u64, b: u64) -> (r: u64)
    ensures
        r == spec_add(p, a, b),
{
    match p {
        Precision::Single => single_add_exec(a as u32, b as u32) as u64,
        Precision::Double => double_add_exec(a, b),
    }
}

pub fn float_div(p: Precision, a: u64, b: u64) -> (r: u64)
    ensures
        r == spec_div(p, a, b),
{
    match p {
        Precision::Single => single_div_exec(a as u32, b as u32) as u64,
        Precision::Double => double_div_exec(a, b),
    }
}

pub fn float_round_uint(p: Precision, a: u64) -> (r: u64)
    ensures
        r == spec_round_uint(p, a),
{
    match p {
        Precision::Single => single_round_uint_exec(a as u32),
        Precision::Double => double_round_uint_exec(a),
    }
}

pub fn float_from_count(p: Precision, n: usize) -> (r: u64)
    ensures
        r == spec_from_count(p, n),
{
    match p {
        Precision::Single => single_from_count_exec(n) as u64,
        Precision::Double => double_from_count_exec(n),
    }
}

} // verus!
