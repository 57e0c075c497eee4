//! The generator's arithmetic: the angle grid a table is sampled at.
//!
//! A table of `N` samples is the sine at the angles `i * ((pi/2) / N)` for
//! `i = 0 .. N-1`, with the step and each product computed in the target
//! width. Only the sine evaluation itself — a transcendental the library
//! does not perform — is left to the caller, who turns each angle pattern
//! into a sample pattern and hands the result to a table constructor.

use vstd::prelude::*;

use crate::arith;
use crate::bits;
use crate::bits::Precision;

verus! {

/// The grid step `(pi/2) / N`, computed at width `p`.
pub open spec fn spec_sample_step(p: Precision, n: usize) -> u64 {
    arith::spec_div(p, bits::frac_pi_2_bits(p), arith::spec_from_count(p, n))
}

/// The `i`-th grid angle `step * i`, computed at width `p`.
pub open spec fn spec_sample_angle(p: Precision, n: usize, i: usize) -> u64 {
    arith::spec_mul(p, spec_sample_step(p, n), arith::spec_from_count(p, i))
}

/// The `N` angles a quarter-sine table of `N` samples is taken at, as bit
/// patterns of width `p`.
pub fn sample_angles(p: Precision, n: usize) -> (r: Vec<u64>)
    ensures
        r@.len() == n,
        forall|i: int| 0 <= i < n ==> #[trigger] r@[i] == spec_sample_angle(p, n, i as usize),
{
    let step = arith::float_div(p, bits::frac_pi_2_of(p), arith::float_from_count(p, n));
    let mut angles: Vec<u64> = Vec::new();
    let mut i: usize = 0;
    while i < n
        invariant
            0 <= i <= n,
            angles@.len() == i,
            step == spec_sample_step(p, n),
            forall|k: int| 0 <= k < i ==> #[trigger] angles@[k] == spec_sample_angle(
                p,
                n,
                k as usize,
            ),
        decreases n - i,
    {
        angles.push(arith::float_mul(p, step, arith::float_from_count(p, i)));
        i = i + 1;
    }
    angles
}

} // verus!
