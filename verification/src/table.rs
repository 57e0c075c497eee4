//! The quarter-sine table.
//!
//! A table holds `N` samples of `sin(i * (pi/2) / N)` for `i = 0 .. N-1` as
//! bit patterns of one floating-point width. The constructor checks the
//! table's invariants — at least one sample, a first sample of exactly zero,
//! samples that never decrease, no sample above one — so every table value
//! in the program is known to satisfy them. For non-negative finite IEEE
//! values the unsigned order of the bit patterns coincides with the numeric
//! order, so the invariants are stated over the patterns themselves.

use vstd::prelude::*;

use crate::bits;
use crate::bits::Precision;

verus! {

/// Why a sample sequence was rejected.
#[derive(Clone, Copy, PartialEq, Eq, Structural, Debug)]
pub enum TableError {
    /// No samples: a zero-length table cannot answer any query.
    Empty,
    /// The first sample is not exactly zero.
    FirstSampleNotZero,
    /// Some adjacent pair of samples decreases.
    Decreasing,
    /// Some sample is above one.
    AboveOne,
}

/// The first reason, if any, to reject `samples` as a quarter-sine table.
/// Emptiness is checked before the first sample, the order of the samples
/// before their bound.
pub open spec fn table_fault(samples: Seq<u64>, p: Precision) -> Option<TableError> {
    if samples.len() == 0 {
        Some(TableError::Empty)
    } else if samples[0] != 0 {
        Some(TableError::FirstSampleNotZero)
    } else if !(forall|i: int, j: int|
        0 <= i <= j < samples.len() ==> #[trigger] samples[i] <= #[trigger] samples[j]) {
        Some(TableError::Decreasing)
    } else if !(forall|i: int| 0 <= i < samples.len() ==> #[trigger] samples[i] <= bits::one_bits(p)) {
        Some(TableError::AboveOne)
    } else {
        None
    }
}

/// `N` quarter-sine samples at one floating-point width, immutable once
/// built.
pub struct QuarterSineTable {
    samples: Vec<u64>,
    precision: Precision,
}

impl QuarterSineTable {
    /// The stored sample patterns.
    pub closed spec fn spec_samples(&self) -> Seq<u64> {
        self.samples@
    }

    /// The floating-point width the samples were generated for.
    pub closed spec fn spec_precision(&self) -> Precision {
        self.precision
    }

    /// The sample count `N`.
    pub open spec fn spec_sample_count(&self) -> usize {
        self.spec_samples().len() as usize
    }

    /// The table invariants: at least one sample; the first sample exactly
    /// zero; samples non-decreasing; no sample above one.
    pub open spec fn wf(&self) -> bool {
        &&& self.spec_samples().len() >= 1
        &&& self.spec_samples()[0] == 0
        &&& forall|i: int, j: int|
            0 <= i <= j < self.spec_samples().len() ==> #[trigger] self.spec_samples()[i]
                <= #[trigger] self.spec_samples()[j]
        &&& forall|i: int|
            0 <= i < self.spec_samples().len() ==> #[trigger] self.spec_samples()[i]
                <= bits::one_bits(self.spec_precision())
    }

    /// Builds a table from raw sample patterns, rejecting any sequence that
    /// breaks the invariants.
    #[verifier::rlimit(30)]
    pub fn new(samples: Vec<u64>, precision: Precision) -> (r: Result<QuarterSineTable, TableError>)
        ensures
            match r {
                Ok(t) => {
                    &&& table_fault(samples@, precision) is None
                    &&& t.spec_samples() == samples@
                    &&& t.spec_precision() == precision
                    &&& t.wf()
                },
                Err(e) => table_fault(samples@, precision) == Some(e),
            },
    {
        if samples.len() == 0 {
            return Err(TableError::Empty);
        }
        if samples[0] != 0 {
            return Err(TableError::FirstSampleNotZero);
        }
        let mut i: usize = 1;
        while i < samples.len()
            invariant
                1 <= i <= samples.len(),
                samples@[0] == 0,
                forall|a: int, b: int|
                    0 <= a <= b < i ==> #[trigger] samples@[a] <= #[trigger] samples@[b],
            decreases samples.len() - i,
        {
            if samples[i - 1] > samples[i] {
                proof {
                    let lo: int = i as int - 1;
                    let hi: int = i as int;
                    assert(!(forall|a: int, b: int|
                        0 <= a <= b < samples@.len() ==> #[trigger] samples@[a]
                            <= #[trigger] samples@[b])) by {
                        assert(0 <= lo <= hi < samples@.len());
                        assert(!(samples@[lo] <= samples@[hi]));
                    }
                }
                return Err(TableError::Decreasing);
            }
            i = i + 1;
        }
        let bound = match precision {
            Precision::Single => bits::ONE_BITS_32,
            Precision::Double => bits::ONE_BITS_64,
        };
        let mut j: usize = 0;
        while j < samples.len()
            invariant
                0 <= j <= samples.len(),
                samples@.len() >= 1,
                samples@[0] == 0,
                bound == bits::one_bits(precision),
                forall|a: int, b: int|
                    0 <= a <= b < samples@.len() ==> #[trigger] samples@[a]
                        <= #[trigger] samples@[b],
                forall|k: int| 0 <= k < j ==> #[trigger] samples@[k] <= bits::one_bits(precision),
            decreases samples.len() - j,
        {
            if samples[j] > bound {
                proof {
                    assert(!(forall|k: int|
                        0 <= k < samples@.len() ==> #[trigger] samples@[k] <= bits::one_bits(
                            precision,
                        ))) by {
                        assert(0 <= j as int && (j as int) < samples@.len());
                        assert(!(samples@[j as int] <= bits::one_bits(precision)));
                    }
                }
                return Err(TableError::AboveOne);
            }
            j = j + 1;
        }
        Ok(QuarterSineTable { samples, precision })
    }

    /// The floating-point width the samples were generated for.
    pub fn precision(&self) -> (r: Precision)
        ensures
            r == self.spec_precision(),
    {
        self.precision
    }

    /// The sample count `N`.
    pub fn sample_count(&self) -> (r: usize)
        ensures
            r == self.spec_sample_count(),
    {
        self.samples.len()
    }

    /// `samples[index]` for `index < N`, no value otherwise.
    pub fn sampled_sin(&self, index: usize) -> (r: Option<u64>)
        ensures
            r == spec_sampled_sin(*self, index),
    {
        if index < self.samples.len() {
            Some(self.samples[index])
        } else {
            None
        }
    }

    /// Like `sampled_sin`, but `index == N` stands for the implicit endpoint
    /// `sin(pi/2) == 1`, which the table does not store.
    pub fn sampled_sin_inclusive(&self, index: usize) -> (r: Option<u64>)
        ensures
            r == spec_sampled_sin_inclusive(*self, index),
    {
        if index == self.samples.len() {
            match self.precision {
                Precision::Single => Some(bits::ONE_BITS_32),
                Precision::Double => Some(bits::ONE_BITS_64),
            }
        } else {
            self.sampled_sin(index)
        }
    }
}

/// `samples[index]` for `index < N`, no value otherwise.
pub open spec fn spec_sampled_sin(t: QuarterSineTable, index: usize) -> Option<u64> {
    if index < t.spec_samples().len() {
        Some(t.spec_samples()[index as int])
    } else {
        None
    }
}

/// `spec_sampled_sin` with `index == N` standing for the endpoint one.
pub open spec fn spec_sampled_sin_inclusive(t: QuarterSineTable, index: usize) -> Option<u64> {
    if index == t.spec_samples().len() {
        Some(bits::one_bits(t.spec_precision()))
    } else {
        spec_sampled_sin(t, index)
    }
}

/// At index `N` the inclusive accessor answers exactly one, for any table
/// of any size.
pub proof fn lemma_endpoint_is_exactly_one(t: QuarterSineTable)
    requires
        t.spec_samples().len() <= usize::MAX,
    ensures
        spec_sampled_sin_inclusive(t, t.spec_sample_count()) == Some(
            bits::one_bits(t.spec_precision()),
        ),
{
}

/// The plain accessor answers no value at `N` and at every larger index;
/// the inclusive accessor answers no value beyond `N`.
pub proof fn lemma_out_of_range_has_no_value(t: QuarterSineTable, index: usize)
    requires
        t.spec_samples().len() <= usize::MAX,
        index >= t.spec_sample_count(),
    ensures
        spec_sampled_sin(t, index) is None,
        index > t.spec_sample_count() ==> spec_sampled_sin_inclusive(t, index) is None,
{
}

} // verus!
