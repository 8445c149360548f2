//! Exponent/mantissa split for the base-2 logarithm. The logarithm of a
//! positive normal value x = (1 + m/2^23) * 2^(e - 127) is
//! (e - 127) + log2(1 + m/2^23): one pattern synthesized here denotes the
//! significand in [1, 2), the other denotes the integer 256 + e, from
//! which one exact subtraction of 383 recovers the unbiased exponent.

use vstd::prelude::*;

verus! {

use vstd::arithmetic::power2::{lemma2_to64, lemma_pow2_adds, lemma_pow2_pos, pow2};
use vstd::arithmetic::mul::{
    lemma_mul_inequality, lemma_mul_is_associative, lemma_mul_is_commutative,
    lemma_mul_is_distributive_add_other_way, lemma_mul_strict_inequality,
};
use crate::fields::{
    scaled_value, spec_exponent_field, spec_mantissa_field, spec_sign_field, EXPONENT_MASK,
    MANTISSA_MASK, ONE_BITS,
};

/// The pattern of the value 256: sign 0, exponent field 135, mantissa 0.
pub const TWO_FIFTY_SIX_BITS: u32 = 0x4380_0000;

/// `x`'s pattern with its exponent field overwritten by that of one.
pub open spec fn spec_log2_unit_bits(x: u32) -> u32 {
    ONE_BITS | (x & MANTISSA_MASK)
}

/// The pattern of 256 with `x`'s exponent field shifted into the mantissa.
pub open spec fn spec_log2_exponent_bits(x: u32) -> u32 {
    TWO_FIFTY_SIX_BITS | ((x & EXPONENT_MASK) >> 8)
}

/// Overwrite the exponent field with that of one, keeping the mantissa:
/// the result denotes `x`'s significand, a value in [1, 2). A pattern with
/// a zero mantissa field — an exact power of two — maps to the pattern of
/// one itself.
pub fn log2_unit_bits(x: u32) -> (r: u32)
    ensures
        r == spec_log2_unit_bits(x),
        spec_sign_field(r) == 0,
        spec_exponent_field(r) == 127,
        spec_mantissa_field(r) == spec_mantissa_field(x),
        spec_mantissa_field(x) == 0 ==> r == ONE_BITS,
{
    let r = ONE_BITS | (x & MANTISSA_MASK);
    proof {
        assert({
            let r = 0x3f80_0000u32 | (x & 0x007f_ffff);
            r >> 31 == 0 && (r >> 23) & 0xff == 127 && r & 0x007f_ffff == x & 0x007f_ffff && (x
                & 0x007f_ffff == 0 ==> r == 0x3f80_0000u32)
        }) by (bit_vector);
    }
    r
}

/// The unit-range pattern denotes exactly (2^23 + mantissa) / 2^23: its
/// scaled value is (mantissa + 2^23) * 2^126, which lies in
/// [2^149, 2^150), that is, the denoted value lies in [1, 2).
pub proof fn lemma_log2_unit_value(x: u32)
    ensures
        scaled_value(spec_log2_unit_bits(x)) == (spec_mantissa_field(x) + pow2(23)) * pow2(126),
        pow2(149) <= scaled_value(spec_log2_unit_bits(x)) < pow2(150),
{
    let r = spec_log2_unit_bits(x);
    let m = spec_mantissa_field(x) as int;
    assert({
        let r = 0x3f80_0000u32 | (x & 0x007f_ffff);
        r >> 31 == 0 && (r >> 23) & 0xff == 127 && r & 0x007f_ffff == x & 0x007f_ffff && x
            & 0x007f_ffff < 0x0080_0000
    }) by (bit_vector);
    assert(scaled_value(r) == (m + pow2(23)) * pow2(126));
    lemma2_to64();
    lemma_pow2_pos(126);
    lemma_pow2_adds(23, 126);
    lemma_pow2_adds(24, 126);
    lemma_mul_inequality(pow2(23) as int, m + pow2(23), pow2(126) as int);
    lemma_mul_strict_inequality(m + pow2(23), pow2(24) as int, pow2(126) as int);
}

/// Shift `x`'s exponent field eight bits down into the mantissa field of
/// the pattern of 256: the result's mantissa field holds the biased
/// exponent e in its top eight bits, so the result denotes
/// 256 * (1 + e * 2^15 / 2^23) — exactly the integer 256 + e.
pub fn log2_exponent_bits(x: u32) -> (r: u32)
    ensures
        r == spec_log2_exponent_bits(x),
        spec_sign_field(r) == 0,
        spec_exponent_field(r) == 135,
        spec_mantissa_field(r) == spec_exponent_field(x) * 0x8000,
{
    let r = TWO_FIFTY_SIX_BITS | ((x & EXPONENT_MASK) >> 8);
    proof {
        assert({
            let r = 0x4380_0000u32 | ((x & 0x7f80_0000) >> 8);
            r >> 31 == 0 && (r >> 23) & 0xff == 135 && r & 0x007f_ffff == ((x >> 23) & 0xff)
                * 0x8000
        }) by (bit_vector);
    }
    r
}

/// The synthesized pattern denotes exactly the integer 256 + e, where e is
/// `x`'s biased exponent field: its scaled value is (256 + e) * 2^149.
/// Subtracting 383 then yields e - 127, the unbiased exponent, and both
/// operands being integers below 2^9, that subtraction is exact in single
/// precision.
pub proof fn lemma_log2_exponent_encodes(x: u32)
    ensures
        scaled_value(spec_log2_exponent_bits(x)) == (256 + spec_exponent_field(x)) * pow2(149),
{
    let r = spec_log2_exponent_bits(x);
    let e = spec_exponent_field(x) as int;
    assert({
        let r = 0x4380_0000u32 | ((x & 0x7f80_0000) >> 8);
        r >> 31 == 0 && (r >> 23) & 0xff == 135 && r & 0x007f_ffff == ((x >> 23) & 0xff)
            * 0x8000 && ((x >> 23) & 0xff) * 0x8000 <= 0x007f_ffff
    }) by (bit_vector);
    lemma2_to64();
    assert(scaled_value(r) == (e * pow2(15) + pow2(23)) * pow2(134));
    lemma_pow2_adds(15, 134);
    lemma_pow2_adds(23, 134);
    lemma_pow2_adds(8, 149);
    lemma_mul_is_distributive_add_other_way(pow2(134) as int, e * pow2(15), pow2(23) as int);
    lemma_mul_is_associative(e, pow2(15) as int, pow2(134) as int);
    lemma_mul_is_distributive_add_other_way(pow2(149) as int, 256, e);
    assert(256 * pow2(149) == pow2(157)) by {
        lemma_pow2_adds(8, 149);
    }
}

/// The split loses nothing: a positive normal pattern denotes exactly its
/// significand times two to the unbiased exponent. As scaled integers,
/// with e the biased exponent field, the value of `x` times 2^126 equals
/// the value of the unit-range pattern times 2^(e - 1) — that is,
/// value(x) == value(unit(x)) * 2^(e - 127), so
/// log2(x) == (e - 127) + log2(unit(x)).
pub proof fn lemma_log2_split_faithful(x: u32)
    requires
        spec_sign_field(x) == 0,
        1 <= spec_exponent_field(x),
    ensures
        scaled_value(x) * pow2(126) == scaled_value(spec_log2_unit_bits(x)) * pow2(
            (spec_exponent_field(x) - 1) as nat,
        ),
{
    let m = spec_mantissa_field(x) as int;
    let e = (spec_exponent_field(x) - 1) as nat;
    assert({
        let r = 0x3f80_0000u32 | (x & 0x007f_ffff);
        r >> 31 == 0 && (r >> 23) & 0xff == 127 && r & 0x007f_ffff == x & 0x007f_ffff
    }) by (bit_vector);
    assert(scaled_value(x) == (m + pow2(23)) * pow2(e));
    assert(scaled_value(spec_log2_unit_bits(x)) == (m + pow2(23)) * pow2(126));
    lemma_mul_is_associative(m + pow2(23), pow2(e) as int, pow2(126) as int);
    lemma_mul_is_associative(m + pow2(23), pow2(126) as int, pow2(e) as int);
    lemma_mul_is_commutative(pow2(e) as int, pow2(126) as int);
}

/// On the pattern of an exact power of two — a zero mantissa field — the
/// whole bit-level front end of the logarithm is exact: the significand
/// pattern is the pattern of one, whose logarithm term the polynomial's
/// vanishing numerator sends to zero, and the exponent pattern denotes
/// the integer 256 + e with no error, so subtracting 383 leaves exactly
/// the unbiased exponent.
pub proof fn lemma_log2_split_exact_on_powers(x: u32)
    requires
        spec_mantissa_field(x) == 0,
    ensures
        spec_log2_unit_bits(x) == ONE_BITS,
        scaled_value(spec_log2_exponent_bits(x)) == (256 + spec_exponent_field(x)) * pow2(149),
{
    assert(x & 0x007f_ffff == 0 ==> (0x3f80_0000u32 | (x & 0x007f_ffff)) == 0x3f80_0000u32)
        by (bit_vector);
    lemma_log2_exponent_encodes(x);
}

} // verus!
