//! IEEE 754 bit-pattern model.
//!
//! Every floating-point value in this crate is carried as its raw bit
//! pattern: a `u32` widened into a `u64` for single precision, a `u64` for
//! double precision. Sign tests, absolute value and negation are pure bit
//! operations on that pattern, so they are implemented and verified here
//! directly; only genuine arithmetic is delegated (see `arith`).

use vstd::prelude::*;

verus! {

/// Floating-point width a quarter-sine table is generated for.
#[derive(Clone, Copy, PartialEq, Eq, Structural, Debug)]
pub enum Precision {
    Single,
    Double,
}

pub const SIGN_BITS_32: u64 = 0x8000_0000;
pub const MAGNITUDE_BITS_32: u64 = 0x7FFF_FFFF;
pub const NAN_INF_BITS_32: u64 = 0x7F80_0000;
pub const ONE_BITS_32: u64 = 0x3F80_0000;
pub const PI_BITS_32: u64 = 0x4049_0FDB;
pub const TWO_PI_BITS_32: u64 = 0x40C9_0FDB;
pub const FRAC_PI_2_BITS_32: u64 = 0x3FC9_0FDB;
pub const FRAC_2_PI_BITS_32: u64 = 0x3F22_F983;

pub const SIGN_BITS_64: u64 = 0x8000_0000_0000_0000;
pub const MAGNITUDE_BITS_64: u64 = 0x7FFF_FFFF_FFFF_FFFF;
pub const NAN_INF_BITS_64: u64 = 0x7FF0_0000_0000_0000;
pub const ONE_BITS_64: u64 = 0x3FF0_0000_0000_0000;
pub const PI_BITS_64: u64 = 0x4009_21FB_5444_2D18;
pub const TWO_PI_BITS_64: u64 = 0x4019_21FB_5444_2D18;
pub const FRAC_PI_2_BITS_64: u64 = 0x3FF9_21FB_5444_2D18;
pub const FRAC_2_PI_BITS_64: u64 = 0x3FE4_5F30_6DC9_C883;

/// Bit that holds the IEEE sign.
pub open spec fn sign_mask(p: Precision) -> u64 {
    match p {
        Precision::Single => SIGN_BITS_32,
        Precision::Double => SIGN_BITS_64,
    }
}

/// All bits but the sign: exponent and mantissa.
pub open spec fn magnitude_mask(p: Precision) -> u64 {
    match p {
        Precision::Single => MAGNITUDE_BITS_32,
        Precision::Double => MAGNITUDE_BITS_64,
    }
}

/// Smallest magnitude that is not finite (the exponent field all ones).
pub open spec fn nan_inf_threshold(p: Precision) -> u64 {
    match p {
        Precision::Single => NAN_INF_BITS_32,
        Precision::Double => NAN_INF_BITS_64,
    }
}

/// Bit pattern of the value one.
pub open spec fn one_bits(p: Precision) -> u64 {
    match p {
        Precision::Single => ONE_BITS_32,
        Precision::Double => ONE_BITS_64,
    }
}

/// Bit pattern of the nearest representable pi.
pub open spec fn pi_bits(p: Precision) -> u64 {
    match p {
        Precision::Single => PI_BITS_32,
        Precision::Double => PI_BITS_64,
    }
}

/// Bit pattern of twice the representable pi (exact, scaling by two).
pub open spec fn two_pi_bits(p: Precision) -> u64 {
    match p {
        Precision::Single => TWO_PI_BITS_32,
        Precision::Double => TWO_PI_BITS_64,
    }
}

/// Bit pattern of half the representable pi (exact, scaling by a half).
pub open spec fn frac_pi_2_bits(p: Precision) -> u64 {
    match p {
        Precision::Single => FRAC_PI_2_BITS_32,
        Precision::Double => FRAC_PI_2_BITS_64,
    }
}

/// Bit pattern of the nearest representable 2/pi.
pub open spec fn frac_2_pi_bits(p: Precision) -> u64 {
    match p {
        Precision::Single => FRAC_2_PI_BITS_32,
        Precision::Double => FRAC_2_PI_BITS_64,
    }
}

/// The IEEE sign bit of `x`, which also classifies `-0.0` as negative.
pub open spec fn spec_is_negative(p: Precision, x: u64) -> bool {
    x & sign_mask(p) != 0
}

/// Absolute value: the pattern with the sign bit cleared.
pub open spec fn spec_magnitude(p: Precision, x: u64) -> u64 {
    x & magnitude_mask(p)
}

/// Negation: the pattern with the sign bit flipped.
pub open spec fn spec_negate(p: Precision, x: u64) -> u64 {
    x ^ sign_mask(p)
}

/// Finite means the exponent field is not all ones: neither infinite nor NaN.
pub open spec fn spec_is_finite(p: Precision, x: u64) -> bool {
    spec_magnitude(p, x) < nan_inf_threshold(p)
}

/// `pi_bits(p)`, as executable code.
pub fn pi_of(p: Precision) -> (r: u64)
    ensures
        r == pi_bits(p),
{
    match p {
        Precision::Single => PI_BITS_32,
        Precision::Double => PI_BITS_64,
    }
}

/// `two_pi_bits(p)`, as executable code.
pub fn two_pi_of(p: Precision) -> (r: u64)
    ensures
        r == two_pi_bits(p),
{
    match p {
        Precision::Single => TWO_PI_BITS_32,
        Precision::Double => TWO_PI_BITS_64,
    }
}

/// `frac_pi_2_bits(p)`, as executable code.
pub fn frac_pi_2_of(p: Precision) -> (r: u64)
    ensures
        r == frac_pi_2_bits(p),
{
    match p {
        Precision::Single => FRAC_PI_2_BITS_32,
        Precision::Double => FRAC_PI_2_BITS_64,
    }
}

/// `frac_2_pi_bits(p)`, as executable code.
pub fn frac_2_pi_of(p: Precision) -> (r: u64)
    ensures
        r == frac_2_pi_bits(p),
{
    match p {
        Precision::Single => FRAC_2_PI_BITS_32,
        Precision::Double => FRAC_2_PI_BITS_64,
    }
}

/// The sign bit of `x`, as executable code.
pub fn is_negative(p: Precision, x: u64) -> (r: bool)
    ensures
        r == spec_is_negative(p, x),
{
    match p {
        Precision::Single => x & SIGN_BITS_32 != 0,
        Precision::Double => x & SIGN_BITS_64 != 0,
    }
}

/// Absolute value of `x`, as executable code.
pub fn magnitude(p: Precision, x: u64) -> (r: u64)
    ensures
        r == spec_magnitude(p, x),
{
    match p {
        Precision::Single => x & MAGNITUDE_BITS_32,
        Precision::Double => x & MAGNITUDE_BITS_64,
    }
}

/// Negation of `x`, as executable code.
pub fn negate(p: Precision, x: u64) -> (r: u64)
    ensures
        r == spec_negate(p, x),
{
    match p {
        Precision::Single => x ^ SIGN_BITS_32,
        Precision::Double => x ^ SIGN_BITS_64,
    }
}

/// Finiteness of `x`, as executable code.
pub fn is_finite(p: Precision, x: u64) -> (r: bool)
    ensures
        r == spec_is_finite(p, x),
{
    let m = magnitude(p, x);
    match p {
        Precision::Single => m < NAN_INF_BITS_32,
        Precision::Double => m < NAN_INF_BITS_64,
    }
}

} // verus!
