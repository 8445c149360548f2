//! Bit-level core of a fast scalar math library for IEEE-754 single
//! precision. A float is handled here only as its 32-bit pattern: the
//! modules split a pattern into sign, exponent and mantissa fields,
//! reassemble patterns, transfer signs, synthesize the exponent-field
//! patterns that drive the base-2 logarithm and exponential, and seed
//! the cube-root iteration. Every operation is exact integer
//! arithmetic with a proved contract; the floating-point polynomial
//! and refinement stages that consume these patterns live outside.

pub mod cbrt;
pub mod exp2;
pub mod fields;
pub mod log2;
pub mod sign;
pub mod trig;
