//! Table-driven trigonometric approximations over IEEE 754 bit patterns.
//!
//! A quarter-sine table holds `N` samples of `sin(i * (pi/2) / N)` for
//! `i = 0 .. N-1`, stored as raw bit patterns of the chosen floating-point
//! width. An engine bound to one table answers `sin`, `cos` and `tan`
//! queries by reducing the angle into the first quadrant and indexing the
//! table; no transcendental routine runs at lookup time.

pub mod arith;
pub mod bits;
pub mod engine;
pub mod generate;
pub mod table;
pub mod traits;

pub use bits::Precision;
pub use table::QuarterSineTable;
pub use table::TableError;
pub use traits::StaticTrigF32;
pub use traits::StaticTrigF64;
pub use traits::TrigF32Engine;
pub use traits::TrigF64Engine;
