//! Cross-platform SIMD building blocks: capability tokens for instruction-set extensions,
//! fixed-width vectors described lane by lane, shims that compose wider vectors from narrower
//! ones, slice windowing, and the resolver that picks the best specialization of a function.

pub mod width;
pub mod arch;
pub mod vector;
pub mod lanes;
pub mod generic;
pub mod shim;
pub mod slice;
pub mod dispatch;
pub mod reduce;
pub mod alignment;
pub mod scalar;
