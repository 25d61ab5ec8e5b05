//! Totally ordered, totally equatable, hashable wrappers around IEEE-754
//! floating-point values, for use as map, set and sort keys.
//!
//! Native floating-point comparison is only a partial order: NaN compares
//! unequal to everything, itself included. The two wrapper types here, [`F32`]
//! and [`F64`], hold the raw bit pattern of a floating-point value and define
//! equality, a strict total order, and a canonical hashing pattern over it:
//! all NaN bit patterns form one equivalence class that sorts below every
//! other value, and the two signed zeros compare equal. The logic is stated
//! and proved entirely over bit patterns: a specification-level decode gives
//! each non-NaN pattern the number it encodes, and the order of the wrappers
//! is proved to coincide with the numeric order of the decoded values.

pub mod ord32;
pub mod ord64;

pub use ord32::F32;
pub use ord64::F64;
