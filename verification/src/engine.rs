//! Quadrant reduction and table lookup.
//!
//! `sin_bits` reduces an arbitrary finite angle into the first quadrant and
//! answers from the table: the angle's sign bit is recorded, the magnitude
//! is folded modulo two pi, angles at or beyond pi flip the sign and lose
//! pi (`sin(x + pi) == -sin(x)`), angles beyond pi/2 are reflected
//! (`sin(pi - x) == sin(x)`, no further sign change), and the result is
//! scaled to the nearest sample index, rounding to the nearest with ties
//! away from zero. `cos_bits` is `sin_bits` of the angle moved up by pi/2;
//! `tan_bits` divides the two. Comparisons against the quadrant bounds are
//! unsigned comparisons of bit patterns, which order non-negative finite
//! IEEE values exactly as their numeric values.
//!
//! A lookup returns no value only on a non-finite angle or when the
//! computed index falls outside `[0, N]`; the latter would mean the
//! reduction itself is broken, so callers treat it as a fatal defect, not
//! as an input error.

use vstd::prelude::*;

use crate::arith;
use crate::bits;
use crate::bits::Precision;
use crate::table::QuarterSineTable;
use crate::table::spec_sampled_sin_inclusive;

verus! {

/// The magnitude of `x` folded modulo two pi.
pub open spec fn spec_reduced(p: Precision, x: u64) -> u64 {
    arith::spec_rem(p, bits::spec_magnitude(p, x), bits::two_pi_bits(p))
}

/// Whether the fold out of the half `[pi, 2*pi)` flips the sign.
pub open spec fn spec_quadrant_flip(p: Precision, x: u64) -> bool {
    spec_reduced(p, x) >= bits::pi_bits(p)
}

/// The reduced magnitude brought into the half period `[0, pi)`: angles at
/// or beyond pi lose pi (and flip the sign, see `spec_quadrant_flip`).
pub open spec fn spec_half_period(p: Precision, x: u64) -> u64 {
    let v = spec_reduced(p, x);
    if v >= bits::pi_bits(p) {
        arith::spec_sub(p, v, bits::pi_bits(p))
    } else {
        v
    }
}

/// The reduced magnitude brought into the first quadrant `[0, pi/2]`: the
/// second half of `[0, pi)` reflects as `pi - value` (`sin(pi - x) ==
/// sin(x)`), with no further sign change.
pub open spec fn spec_first_quadrant(p: Precision, x: u64) -> u64 {
    let v = spec_half_period(p, x);
    if v > bits::frac_pi_2_bits(p) {
        arith::spec_sub(p, bits::pi_bits(p), v)
    } else {
        v
    }
}

/// The sign of the answer: the angle's own sign, flipped by the fold.
pub open spec fn spec_negative(p: Precision, x: u64) -> bool {
    bits::spec_is_negative(p, x) != spec_quadrant_flip(p, x)
}

/// The sample index: the first-quadrant angle times `(2/pi) * N`, rounded
/// to the nearest integer with ties away from zero.
pub open spec fn spec_sample_index(t: QuarterSineTable, x: u64) -> u64 {
    let p = t.spec_precision();
    arith::spec_round_uint(
        p,
        arith::spec_mul(
            p,
            spec_first_quadrant(p, x),
            arith::spec_mul(
                p,
                bits::frac_2_pi_bits(p),
                arith::spec_from_count(p, t.spec_sample_count()),
            ),
        ),
    )
}

/// What `sin_bits` returns: the looked-up sample with the recorded sign
/// applied, no value on a non-finite angle or an out-of-range index.
pub open spec fn spec_sin(t: QuarterSineTable, x: u64) -> Option<u64> {
    let p = t.spec_precision();
    if bits::spec_is_finite(p, x) {
        let idx = spec_sample_index(t, x);
        if idx <= t.spec_sample_count() as u64 {
            match spec_sampled_sin_inclusive(t, idx as usize) {
                Some(s) => Some(
                    if spec_negative(p, x) {
                        bits::spec_negate(p, s)
                    } else {
                        s
                    },
                ),
                None => None,
            }
        } else {
            None
        }
    } else {
        None
    }
}

/// What `cos_bits` returns: the sine of the angle moved up by pi/2.
pub open spec fn spec_cos(t: QuarterSineTable, x: u64) -> Option<u64> {
    spec_sin(t, arith::spec_add(t.spec_precision(), x, bits::frac_pi_2_bits(t.spec_precision())))
}

/// What `tan_bits` returns: sine divided by cosine.
pub open spec fn spec_tan(t: QuarterSineTable, x: u64) -> Option<u64> {
    match (spec_sin(t, x), spec_cos(t, x)) {
        (Some(s), Some(c)) => Some(arith::spec_div(t.spec_precision(), s, c)),
        _ => None,
    }
}

/// The sine of the angle with bit pattern `radians`, from the table alone.
pub fn sin_bits(t: &QuarterSineTable, radians: u64) -> (r: Option<u64>)
    ensures
        r == spec_sin(*t, radians),
{
    let p = t.precision();
    if !bits::is_finite(p, radians) {
        return None;
    }
    let negative = bits::is_negative(p, radians);
    let v = arith::float_rem(p, bits::magnitude(p, radians), bits::two_pi_of(p));
    let flip = v >= bits::pi_of(p);
    let half = if flip {
        arith::float_sub(p, v, bits::pi_of(p))
    } else {
        v
    };
    let w = if half > bits::frac_pi_2_of(p) {
        arith::float_sub(p, bits::pi_of(p), half)
    } else {
        half
    };
    let n = t.sample_count();
    let scale = arith::float_mul(p, bits::frac_2_pi_of(p), arith::float_from_count(p, n));
    let idx = arith::float_round_uint(p, arith::float_mul(p, w, scale));
    if idx <= n as u64 {
        match t.sampled_sin_inclusive(idx as usize) {
            Some(s) => Some(
                if negative != flip {
                    bits::negate(p, s)
                } else {
                    s
                },
            ),
            None => None,
        }
    } else {
        None
    }
}

/// The cosine of `radians`: the sine of the angle moved up by pi/2.
pub fn cos_bits(t: &QuarterSineTable, radians: u64) -> (r: Option<u64>)
    ensures
        r == spec_cos(*t, radians),
{
    let p = t.precision();
    sin_bits(t, arith::float_add(p, radians, bits::frac_pi_2_of(p)))
}

/// The tangent of `radians`: sine divided by cosine. Near an odd multiple
/// of pi/2 the division gives a huge or non-finite value by the ordinary
/// IEEE rules; that is the intended answer, not an error.
pub fn tan_bits(t: &QuarterSineTable, radians: u64) -> (r: Option<u64>)
    ensures
        r == spec_tan(*t, radians),
{
    let p = t.precision();
    let s = sin_bits(t, radians);
    let c = cos_bits(t, radians);
    match (s, c) {
        (Some(sv), Some(cv)) => Some(arith::float_div(p, sv, cv)),
        _ => None,
    }
}

/// Negation mapped over an optional bit pattern.
pub open spec fn spec_negate_opt(p: Precision, o: Option<u64>) -> Option<u64> {
    match o {
        Some(v) => Some(bits::spec_negate(p, v)),
        None => None,
    }
}

/// Odd symmetry, bit-exact: the sine of the negated angle is the negated
/// sine, for every angle pattern and every table. Negating an angle
/// touches only its sign bit, so the whole reduction sees the same
/// magnitude and only the recorded sign flips.
pub proof fn lemma_sin_odd_symmetry(t: QuarterSineTable, x: u64)
    ensures
        spec_sin(t, bits::spec_negate(t.spec_precision(), x)) == spec_negate_opt(
            t.spec_precision(),
            spec_sin(t, x),
        ),
{
    let p = t.spec_precision();
    let y = bits::spec_negate(p, x);
    match p {
        Precision::Single => {
            assert((x ^ 0x8000_0000u64) & 0x7FFF_FFFFu64 == x & 0x7FFF_FFFFu64) by (bit_vector);
            assert(((x ^ 0x8000_0000u64) & 0x8000_0000u64 != 0) == !(x & 0x8000_0000u64 != 0))
                by (bit_vector);
        },
        Precision::Double => {
            assert((x ^ 0x8000_0000_0000_0000u64) & 0x7FFF_FFFF_FFFF_FFFFu64 == x
                & 0x7FFF_FFFF_FFFF_FFFFu64) by (bit_vector);
            assert(((x ^ 0x8000_0000_0000_0000u64) & 0x8000_0000_0000_0000u64 != 0) == !(x
                & 0x8000_0000_0000_0000u64 != 0)) by (bit_vector);
        },
    }
    assert(bits::spec_magnitude(p, y) == bits::spec_magnitude(p, x));
    assert(bits::spec_is_negative(p, y) == !bits::spec_is_negative(p, x));
    if bits::spec_is_finite(p, x) {
        let idx = spec_sample_index(t, x);
        if idx <= t.spec_sample_count() as u64 {
            match spec_sampled_sin_inclusive(t, idx as usize) {
                Some(s) => {
                    match p {
                        Precision::Single => {
                            assert((s ^ 0x8000_0000u64) ^ 0x8000_0000u64 == s) by (bit_vector);
                        },
                        Precision::Double => {
                            assert((s ^ 0x8000_0000_0000_0000u64) ^ 0x8000_0000_0000_0000u64 == s)
                                by (bit_vector);
                        },
                    }
                },
                None => {},
            }
        }
    }
}

/// The cosine-via-shift identity, by construction: the cosine of any angle
/// is the sine of the angle moved up by pi/2, through the identical
/// reduction path.
pub proof fn lemma_cos_is_shifted_sin(t: QuarterSineTable, x: u64)
    ensures
        spec_cos(t, x) == spec_sin(
            t,
            arith::spec_add(t.spec_precision(), x, bits::frac_pi_2_bits(t.spec_precision())),
        ),
{
}

} // verus!
