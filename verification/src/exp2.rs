//! Exponent-field synthesis for the base-2 exponential. For an argument
//! n in the valid range, the caller forms the float 383 + n, a value in
//! [256, 512) whose pattern has exponent field 135 and whose mantissa
//! field holds floor(383 + n) - 256 = n + 127 in its top eight bits.
//! Shifting the pattern one byte left and masking to the exponent bits
//! then constructs the pattern of 2^n directly, with no multiply.

use vstd::prelude::*;

verus! {

use vstd::arithmetic::power2::{lemma2_to64, lemma_pow2_adds, lemma_pow2_pos, pow2};
use vstd::arithmetic::mul::{
    lemma_mul_inequality, lemma_mul_is_associative, lemma_mul_is_distributive_add_other_way,
    lemma_mul_strict_inequality,
};
use crate::fields::{
    scaled_value, spec_exponent_field, spec_mantissa_field, spec_sign_field, EXPONENT_MASK,
};

/// `y`'s pattern shifted one byte left, masked to the exponent bits.
pub open spec fn spec_exp2_exponent_bits(y: u32) -> u32 {
    (y << 8) & EXPONENT_MASK
}

/// Shift bits 15 to 22 of `y` into the exponent field of a fresh pattern
/// with sign 0 and mantissa 0: when those bits hold a biased exponent,
/// the result is the pattern of the corresponding power of two.
pub fn exp2_exponent_bits(y: u32) -> (r: u32)
    ensures
        r == spec_exp2_exponent_bits(y),
        spec_sign_field(r) == 0,
        spec_mantissa_field(r) == 0,
        spec_exponent_field(r) == (y >> 15) & 0xff,
{
    let r = (y << 8) & EXPONENT_MASK;
    proof {
        assert({
            let r = (y << 8) & 0x7f80_0000;
            r >> 31 == 0 && r & 0x007f_ffff == 0 && (r >> 23) & 0xff == (y >> 15) & 0xff
        }) by (bit_vector);
    }
    r
}

/// For a pattern `y` denoting a value v in [256, 512) — sign 0, exponent
/// field 135 — write k for the top eight mantissa bits, so that
/// v = 256 + k + fraction with the fraction in [0, 1): the integer part of
/// v is 256 + k, and while k stays at least one the synthesized pattern
/// denotes exactly 2^(k - 127), that is 2^(floor(v) - 383). At the bottom
/// edge, k = 0, the power 2^-127 has no normal pattern and the
/// construction collapses to the zero pattern instead.
pub proof fn lemma_exp2_exponent_power(y: u32)
    requires
        spec_sign_field(y) == 0,
        spec_exponent_field(y) == 135,
    ensures
        spec_exponent_field(spec_exp2_exponent_bits(y)) == spec_mantissa_field(y) / 0x8000,
        (256 + spec_mantissa_field(y) / 0x8000) * pow2(149) <= scaled_value(y) < (257
            + spec_mantissa_field(y) / 0x8000) * pow2(149),
        spec_mantissa_field(y) / 0x8000 >= 1 ==> scaled_value(spec_exp2_exponent_bits(y)) == pow2(
            (22 + spec_mantissa_field(y) / 0x8000) as nat,
        ),
        spec_mantissa_field(y) / 0x8000 == 0 ==> spec_exp2_exponent_bits(y) == 0,
{
    let r = spec_exp2_exponent_bits(y);
    let m = spec_mantissa_field(y) as int;
    let k = (spec_mantissa_field(y) / 0x8000) as int;
    assert({
        let r = (y << 8) & 0x7f80_0000;
        let m = y & 0x007f_ffff;
        let k = m / 0x8000;
        (r >> 23) & 0xff == k && r >> 31 == 0 && r & 0x007f_ffff == 0 && k <= 255 && k * 0x8000
            <= m && m < k * 0x8000 + 0x8000 && (k == 0 ==> r == 0)
    }) by (bit_vector)
        requires
            y >> 31 == 0 && (y >> 23) & 0xff == 135,
    ;
    lemma2_to64();
    lemma_pow2_pos(134);
    assert(scaled_value(y) == (m + pow2(23)) * pow2(134));

    // the bracketing values, rewritten as multiples of 2^149 plus 2^157
    assert((k * pow2(15) + pow2(23)) * pow2(134) == k * pow2(149) + pow2(157)) by {
        lemma_mul_is_distributive_add_other_way(pow2(134) as int, k * pow2(15), pow2(23) as int);
        lemma_mul_is_associative(k, pow2(15) as int, pow2(134) as int);
        lemma_pow2_adds(15, 134);
        lemma_pow2_adds(23, 134);
    }
    assert(((k + 1) * pow2(15) + pow2(23)) * pow2(134) == (k + 1) * pow2(149) + pow2(157)) by {
        lemma_mul_is_distributive_add_other_way(
            pow2(134) as int,
            (k + 1) * pow2(15),
            pow2(23) as int,
        );
        lemma_mul_is_associative(k + 1, pow2(15) as int, pow2(134) as int);
        lemma_pow2_adds(15, 134);
        lemma_pow2_adds(23, 134);
    }
    assert((256 + k) * pow2(149) == k * pow2(149) + pow2(157)) by {
        lemma_mul_is_distributive_add_other_way(pow2(149) as int, 256, k);
        lemma_pow2_adds(8, 149);
    }
    assert((257 + k) * pow2(149) == (k + 1) * pow2(149) + pow2(157)) by {
        lemma_mul_is_distributive_add_other_way(pow2(149) as int, 256, k + 1);
        lemma_pow2_adds(8, 149);
    }
    lemma_mul_inequality(k * pow2(15) + pow2(23), m + pow2(23), pow2(134) as int);
    lemma_mul_strict_inequality(m + pow2(23), (k + 1) * pow2(15) + pow2(23), pow2(134) as int);

    if k >= 1 {
        assert(scaled_value(r) == pow2(23) * pow2((k - 1) as nat));
        lemma_pow2_adds(23, (k - 1) as nat);
    }
}

} // verus!
