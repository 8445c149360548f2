//! Bit-trick seed for the cube root. The integer view of a positive
//! pattern is close to an affine function of the value's base-2
//! logarithm, and the cube root divides that logarithm by three: a third
//! of the pattern plus a fixed bias therefore lands within a few percent
//! of the cube root's pattern, close enough for Halley's method to reach
//! single precision in one or two iterations.

use vstd::prelude::*;

verus! {

use crate::fields::{
    lemma_pattern_order_is_value_order, scaled_value, spec_exponent_field, spec_sign_field,
};

/// The bias added to a third of the pattern. It folds together the
/// residual two thirds of the exponent bias with the constant that
/// centres the relative error of the seed over [1, 8).
pub const CBRT_SEED_BIAS: u32 = 709_982_100;

/// A third of the pattern, plus the bias. The sum stays below 2^31 for
/// every input, so the seed never carries a sign bit.
pub open spec fn spec_cbrt_seed_bits(x: u32) -> u32 {
    (x / 3 + CBRT_SEED_BIAS) as u32
}

/// Seed the cube-root iteration: divide `x`'s pattern by three as an
/// integer and add the fixed bias.
pub fn cbrt_seed_bits(x: u32) -> (r: u32)
    ensures
        r == spec_cbrt_seed_bits(x),
        spec_sign_field(r) == 0,
        r >= CBRT_SEED_BIAS,
{
    proof {
        assert(x / 3 + 709_982_100 <= 0x7fff_ffff) by (bit_vector);
        assert({
            let r = (x / 3 + 709_982_100) as u32;
            r >> 31 == 0 && r >= 709_982_100
        }) by (bit_vector);
    }
    x / 3 + CBRT_SEED_BIAS
}

/// The seed of any positive finite pattern is itself a positive normal
/// finite pattern: its exponent field is strictly between 0 and 255, so
/// the iteration starts from an ordinary nonzero value.
pub proof fn lemma_cbrt_seed_normal(x: u32)
    requires
        x <= 0x7f7f_ffff,
    ensures
        spec_sign_field(spec_cbrt_seed_bits(x)) == 0,
        1 <= spec_exponent_field(spec_cbrt_seed_bits(x)) <= 254,
{
    assert({
        let r = (x / 3 + 709_982_100) as u32;
        r >> 31 == 0 && 1 <= (r >> 23) & 0xff && (r >> 23) & 0xff <= 254
    }) by (bit_vector)
        requires
            x <= 0x7f7f_ffff,
    ;
}

/// The seed is monotone in the pattern: of two positive values, the
/// larger — whose pattern is the larger integer — seeds a pattern at
/// least as large, mirroring the monotonicity of the cube root itself.
pub proof fn lemma_cbrt_seed_monotone(a: u32, b: u32)
    requires
        a <= b,
    ensures
        spec_cbrt_seed_bits(a) <= spec_cbrt_seed_bits(b),
{
    assert((a / 3 + 709_982_100) as u32 <= (b / 3 + 709_982_100) as u32) by (bit_vector)
        requires
            a <= b,
    ;
}

/// Monotone at the value level too: since every seed carries a clear
/// sign bit, seeds in pattern order denote values in the same order —
/// for positive inputs, whose pattern order is their value order, the
/// seed therefore never inverts two values, as the cube root never does.
pub proof fn lemma_cbrt_seed_value_monotone(a: u32, b: u32)
    requires
        a <= b,
    ensures
        scaled_value(spec_cbrt_seed_bits(a)) <= scaled_value(spec_cbrt_seed_bits(b)),
{
    lemma_cbrt_seed_monotone(a, b);
    assert((a / 3 + 709_982_100) as u32 >> 31 == 0 && (b / 3 + 709_982_100) as u32 >> 31 == 0)
        by (bit_vector);
    lemma_pattern_order_is_value_order(spec_cbrt_seed_bits(a), spec_cbrt_seed_bits(b));
}

} // verus!
