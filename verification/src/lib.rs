//! An exact SUM aggregate: a running total for a whole partition, for a
//! sliding window and for each group of a grouped aggregation, over nullable
//! columns of 64-bit integers and of 128- and 256-bit decimals.
//!
//! Every total wraps around at the boundary of its representation; a total is
//! null until a non-null value has reached it.
//!
//! The type rules know the floating kind too, but no accumulator here sums
//! floats: floating-point addition is not exact, and a caller that has floats
//! adds them up itself.

pub mod cells;
pub mod element_type;
pub mod error;
pub mod grouped;
pub mod laws;
pub mod modular;
pub mod native;
pub mod outside;
pub mod scalar;
pub mod sliding;
pub mod sum;
pub mod values;
