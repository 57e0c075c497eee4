//! The engine capability surface, one trait per floating-point width.
//!
//! An implementor binds itself to one quarter-sine table and answers
//! `sin`, `cos` and `tan` plus the raw sample accessors, all over bit
//! patterns of its width. A caller wanting both widths binds two engines.

use vstd::prelude::*;

use crate::bits::Precision;
use crate::engine;
use crate::table::QuarterSineTable;
use crate::table::TableError;
use crate::table::spec_sampled_sin;
use crate::table::spec_sampled_sin_inclusive;
use crate::table::table_fault;

verus! {

/// The low 32 bits of an optional pattern: how a single-precision answer
/// is read out of the shared 64-bit carrier.
pub open spec fn opt_low32(o: Option<u64>) -> Option<u32> {
    match o {
        Some(v) => Some(v as u32),
        None => None,
    }
}

/// Single-precision patterns widened into the shared 64-bit carrier.
pub open spec fn widen32(s: Seq<u32>) -> Seq<u64> {
    s.map_values(|v: u32| v as u64)
}

/// A single-precision engine: bound to one quarter-sine table, it answers
/// trigonometric queries on `u32` bit patterns.
pub trait StaticTrigF32 {
    /// The quarter-sine table the engine is bound to.
    spec fn spec_table(&self) -> QuarterSineTable;

    /// `samples[index]` if `index < N`, no value otherwise.
    fn sampled_sin(&self, index: usize) -> (r: Option<u32>)
        ensures
            r == opt_low32(spec_sampled_sin(self.spec_table(), index)),
    ;

    /// Like `sampled_sin`, but `index == N` answers the exact endpoint one.
    fn sampled_sin_inclusive(&self, index: usize) -> (r: Option<u32>)
        ensures
            r == opt_low32(spec_sampled_sin_inclusive(self.spec_table(), index)),
    ;

    /// The approximate sine of the angle with bit pattern `radians`.
    fn sin(&self, radians: u32) -> (r: Option<u32>)
        ensures
            r == opt_low32(engine::spec_sin(self.spec_table(), radians as u64)),
    ;

    /// The approximate cosine: the sine of the angle moved up by pi/2.
    fn cos(&self, radians: u32) -> (r: Option<u32>)
        ensures
            r == opt_low32(engine::spec_cos(self.spec_table(), radians as u64)),
    ;

    /// The approximate tangent: sine divided by cosine.
    fn tan(&self, radians: u32) -> (r: Option<u32>)
        ensures
            r == opt_low32(engine::spec_tan(self.spec_table(), radians as u64)),
    ;
}

/// A double-precision engine: bound to one quarter-sine table, it answers
/// trigonometric queries on `u64` bit patterns.
pub trait StaticTrigF64 {
    /// The quarter-sine table the engine is bound to.
    spec fn spec_table(&self) -> QuarterSineTable;

    /// `samples[index]` if `index < N`, no value otherwise.
    fn sampled_sin(&self, index: usize) -> (r: Option<u64>)
        ensures
            r == spec_sampled_sin(self.spec_table(), index),
    ;

    /// Like `sampled_sin`, but `index == N` answers the exact endpoint one.
    fn sampled_sin_inclusive(&self, index: usize) -> (r: Option<u64>)
        ensures
            r == spec_sampled_sin_inclusive(self.spec_table(), index),
    ;

    /// The approximate sine of the angle with bit pattern `radians`.
    fn sin(&self, radians: u64) -> (r: Option<u64>)
        ensures
            r == engine::spec_sin(self.spec_table(), radians),
    ;

    /// The approximate cosine: the sine of the angle moved up by pi/2.
    fn cos(&self, radians: u64) -> (r: Option<u64>)
        ensures
            r == engine::spec_cos(self.spec_table(), radians),
    ;

    /// The approximate tangent: sine divided by cosine.
    fn tan(&self, radians: u64) -> (r: Option<u64>)
        ensures
            r == engine::spec_tan(self.spec_table(), radians),
    ;
}

/// The single-precision engine: one validated table, immutable from then
/// on.
pub struct TrigF32Engine {
    table: QuarterSineTable,
}

impl TrigF32Engine {
    /// The engine's invariant: a well-formed single-precision table.
    pub open spec fn wf(&self) -> bool {
        &&& self.spec_table().wf()
        &&& self.spec_table().spec_precision() == Precision::Single
    }

    /// Binds an engine to the given single-precision sample patterns,
    /// rejecting any sequence that breaks the table invariants.
    pub fn new(samples: Vec<u32>) -> (r: Result<TrigF32Engine, TableError>)
        ensures
            match r {
                Ok(e) => {
                    &&& table_fault(widen32(samples@), Precision::Single) is None
                    &&& e.spec_table().spec_samples() == widen32(samples@)
                    &&& e.spec_table().spec_precision() == Precision::Single
                    &&& e.wf()
                },
                Err(er) => table_fault(widen32(samples@), Precision::Single) == Some(er),
            },
    {
        let mut wide: Vec<u64> = Vec::new();
        let mut i: usize = 0;
        while i < samples.len()
            invariant
                0 <= i <= samples.len(),
                wide@.len() == i,
                forall|k: int| 0 <= k < i ==> #[trigger] wide@[k] == samples@[k] as u64,
            decreases samples.len() - i,
        {
            wide.push(samples[i] as u64);
            i = i + 1;
        }
        proof {
            assert(wide@ =~= widen32(samples@));
        }
        match QuarterSineTable::new(wide, Precision::Single) {
            Ok(t) => Ok(TrigF32Engine { table: t }),
            Err(er) => Err(er),
        }
    }

    /// The sample count `N` of the bound table.
    pub fn sample_count(&self) -> (r: usize)
        ensures
            r == self.spec_table().spec_sample_count(),
    {
        self.table.sample_count()
    }
}

impl StaticTrigF32 for TrigF32Engine {
    closed spec fn spec_table(&self) -> QuarterSineTable {
        self.table
    }

    fn sampled_sin(&self, index: usize) -> (r: Option<u32>) {
        match self.table.sampled_sin(index) {
            Some(v) => Some(v as u32),
            None => None,
        }
    }

    fn sampled_sin_inclusive(&self, index: usize) -> (r: Option<u32>) {
        match self.table.sampled_sin_inclusive(index) {
            Some(v) => Some(v as u32),
            None => None,
        }
    }

    fn sin(&self, radians: u32) -> (r: Option<u32>) {
        match engine::sin_bits(&self.table, radians as u64) {
            Some(v) => Some(v as u32),
            None => None,
        }
    }

    fn cos(&self, radians: u32) -> (r: Option<u32>) {
        match engine::cos_bits(&self.table, radians as u64) {
            Some(v) => Some(v as u32),
            None => None,
        }
    }

    fn tan(&self, radians: u32) -> (r: Option<u32>) {
        match engine::tan_bits(&self.table, radians as u64) {
            Some(v) => Some(v as u32),
            None => None,
        }
    }
}

/// The double-precision engine: one validated table, immutable from then
/// on.
pub struct TrigF64Engine {
    table: QuarterSineTable,
}

impl TrigF64Engine {
    /// The engine's invariant: a well-formed double-precision table.
    pub open spec fn wf(&self) -> bool {
        &&& self.spec_table().wf()
        &&& self.spec_table().spec_precision() == Precision::Double
    }

    /// Binds an engine to the given double-precision sample patterns,
    /// rejecting any sequence that breaks the table invariants.
    pub fn new(samples: Vec<u64>) -> (r: Result<TrigF64Engine, TableError>)
        ensures
            match r {
                Ok(e) => {
                    &&& table_fault(samples@, Precision::Double) is None
                    &&& e.spec_table().spec_samples() == samples@
                    &&& e.spec_table().spec_precision() == Precision::Double
                    &&& e.wf()
                },
                Err(er) => table_fault(samples@, Precision::Double) == Some(er),
            },
    {
        match QuarterSineTable::new(samples, Precision::Double) {
            Ok(t) => Ok(TrigF64Engine { table: t }),
            Err(er) => Err(er),
        }
    }

    /// The sample count `N` of the bound table.
    pub fn sample_count(&self) -> (r: usize)
        ensures
            r == self.spec_table().spec_sample_count(),
    {
        self.table.sample_count()
    }
}

impl StaticTrigF64 for TrigF64Engine {
    closed spec fn spec_table(&self) -> QuarterSineTable {
        self.table
    }

    fn sampled_sin(&self, index: usize) -> (r: Option<u64>) {
        self.table.sampled_sin(index)
    }

    fn sampled_sin_inclusive(&self, index: usize) -> (r: Option<u64>) {
        self.table.sampled_sin_inclusive(index)
    }

    fn sin(&self, radians: u64) -> (r: Option<u64>) {
        engine::sin_bits(&self.table, radians)
    }

    fn cos(&self, radians: u64) -> (r: Option<u64>) {
        engine::cos_bits(&self.table, radians)
    }

    fn tan(&self, radians: u64) -> (r: Option<u64>) {
        engine::tan_bits(&self.table, radians)
    }
}

} // verus!
