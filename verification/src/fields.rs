//! The three fields of an IEEE-754 single-precision bit pattern, and the
//! exact value a finite pattern denotes.

use vstd::prelude::*;

verus! {

use vstd::arithmetic::power2::{lemma2_to64, lemma_pow2_adds, lemma_pow2_pos,
    lemma_pow2_strictly_increases, pow2};
use vstd::arithmetic::mul::{lemma_mul_inequality, lemma_mul_strict_inequality};

/// Mask of the sign bit (bit 31).
pub const SIGN_MASK: u32 = 0x8000_0000;
/// Mask of the eight exponent bits (bits 30 down to 23).
pub const EXPONENT_MASK: u32 = 0x7f80_0000;
/// Mask of the 23 mantissa bits (bits 22 down to 0).
pub const MANTISSA_MASK: u32 = 0x007f_ffff;
/// The pattern of the value one: sign 0, exponent field 127, mantissa 0.
pub const ONE_BITS: u32 = 0x3f80_0000;

/// The sign bit of a pattern, as 0 or 1.
pub open spec fn spec_sign_field(bits: u32) -> u32 {
    bits >> 31
}

/// The biased exponent field of a pattern, in 0..=255.
pub open spec fn spec_exponent_field(bits: u32) -> u32 {
    (bits >> 23) & 0xff
}

/// The mantissa field of a pattern, in 0..=0x7f_ffff.
pub open spec fn spec_mantissa_field(bits: u32) -> u32 {
    bits & MANTISSA_MASK
}

/// The value a finite pattern denotes, scaled by 2^149 so that it is an
/// integer. A subnormal pattern (exponent field 0) denotes
/// mantissa / 2^149; a normal pattern denotes
/// (1 + mantissa / 2^23) * 2^(e - 127), that is
/// (mantissa + 2^23) * 2^(e - 1) / 2^149; the sign bit negates.
pub open spec fn scaled_value(bits: u32) -> int {
    let magnitude: int = if spec_exponent_field(bits) == 0 {
        spec_mantissa_field(bits) as int
    } else {
        (spec_mantissa_field(bits) + pow2(23)) * pow2((spec_exponent_field(bits) - 1) as nat)
    };
    if spec_sign_field(bits) == 0 {
        magnitude
    } else {
        -magnitude
    }
}

/// A pattern taken apart: one sign bit, eight exponent bits, 23 mantissa
/// bits, each held in its own word.
#[derive(Clone, Copy, Debug, PartialEq, Eq, Structural)]
pub struct FloatParts {
    pub sign: u32,
    pub exponent: u32,
    pub mantissa: u32,
}

impl FloatParts {
    /// Each field fits its width.
    pub open spec fn wf(self) -> bool {
        self.sign <= 1 && self.exponent <= 0xff && self.mantissa <= MANTISSA_MASK
    }

    /// The pattern these fields assemble to.
    pub open spec fn spec_bits(self) -> u32 {
        (self.sign << 31) | (self.exponent << 23) | self.mantissa
    }
}

/// Split a pattern into its sign, exponent and mantissa fields.
pub fn decompose(bits: u32) -> (p: FloatParts)
    ensures
        p.sign == spec_sign_field(bits),
        p.exponent == spec_exponent_field(bits),
        p.mantissa == spec_mantissa_field(bits),
        p.wf(),
        p.spec_bits() == bits,
{
    let p = FloatParts {
        sign: bits >> 31,
        exponent: (bits >> 23) & 0xff,
        mantissa: bits & MANTISSA_MASK,
    };
    proof {
        assert(bits >> 31 <= 1 && (bits >> 23) & 0xff <= 0xff && bits & 0x007f_ffff
            <= 0x007f_ffff) by (bit_vector);
        assert(((bits >> 31) << 31) | (((bits >> 23) & 0xff) << 23) | (bits & 0x007f_ffff)
            == bits) by (bit_vector);
    }
    p
}

/// Assemble well-formed fields into the pattern they describe.
pub fn compose(p: FloatParts) -> (bits: u32)
    requires
        p.wf(),
    ensures
        bits == p.spec_bits(),
        spec_sign_field(bits) == p.sign,
        spec_exponent_field(bits) == p.exponent,
        spec_mantissa_field(bits) == p.mantissa,
{
    let bits = (p.sign << 31) | (p.exponent << 23) | p.mantissa;
    proof {
        let (s, e, m) = (p.sign, p.exponent, p.mantissa);
        assert({
            let b = (s << 31) | (e << 23) | m;
            b >> 31 == s && (b >> 23) & 0xff == e && b & 0x007f_ffff == m
        }) by (bit_vector)
            requires
                s <= 1 && e <= 0xff && m <= 0x007f_ffff,
        ;
    }
    bits
}

/// Of two patterns with the sign bit clear, the one that is the larger
/// integer denotes the strictly larger value: positive patterns order
/// exactly as the values they denote. This is the near-linear
/// pattern-to-logarithm relationship that the cube-root seed exploits,
/// and it is what makes the distance between two patterns a measure of
/// the distance between their values.
pub proof fn lemma_pattern_order_is_value_order(a: u32, b: u32)
    requires
        spec_sign_field(a) == 0,
        spec_sign_field(b) == 0,
    ensures
        a <= b <==> scaled_value(a) <= scaled_value(b),
        a < b <==> scaled_value(a) < scaled_value(b),
{
    if a < b {
        lemma_scaled_magnitude_increases(a, b);
    }
    if b < a {
        lemma_scaled_magnitude_increases(b, a);
    }
}

/// The strict half of the ordering law: a strictly larger positive
/// pattern denotes a strictly larger value, whether the patterns are
/// subnormal, normal, or one of each.
proof fn lemma_scaled_magnitude_increases(a: u32, b: u32)
    requires
        spec_sign_field(a) == 0,
        spec_sign_field(b) == 0,
        a < b,
    ensures
        scaled_value(a) < scaled_value(b),
{
    let ea = spec_exponent_field(a);
    let eb = spec_exponent_field(b);
    let ma = spec_mantissa_field(a) as int;
    let mb = spec_mantissa_field(b) as int;
    // a larger pattern means a larger exponent field, or the same
    // exponent field and a larger mantissa field
    assert((a >> 23) & 0xff < (b >> 23) & 0xff || ((a >> 23) & 0xff == (b >> 23) & 0xff && (a
        & 0x007f_ffff) < (b & 0x007f_ffff))) by (bit_vector)
        requires
            a >> 31 == 0 && b >> 31 == 0 && a < b,
    ;
    assert(a & 0x007f_ffff <= 0x007f_ffff && b & 0x007f_ffff <= 0x007f_ffff) by (bit_vector);
    lemma2_to64();
    if ea == eb {
        if ea != 0 {
            lemma_pow2_pos((ea - 1) as nat);
            lemma_mul_strict_inequality(ma + pow2(23), mb + pow2(23), pow2((ea - 1) as nat) as int);
        }
    } else {
        // the whole exponent step dominates: scaled_value(a) is below
        // 2^(ea + 23), which is at most 2^(eb + 22), the floor of
        // scaled_value(b)
        assert(scaled_value(b) >= pow2((eb + 22) as nat)) by {
            lemma_pow2_pos((eb - 1) as nat);
            lemma_mul_inequality(pow2(23) as int, mb + pow2(23), pow2((eb - 1) as nat) as int);
            lemma_pow2_adds(23, (eb - 1) as nat);
        }
        if ea == 0 {
            assert(pow2(23) <= pow2((eb + 22) as nat)) by {
                if eb + 22 != 23 {
                    lemma_pow2_strictly_increases(23, (eb + 22) as nat);
                }
            }
        } else {
            assert(scaled_value(a) < pow2((ea + 23) as nat)) by {
                lemma_pow2_pos((ea - 1) as nat);
                lemma_mul_strict_inequality(
                    ma + pow2(23),
                    pow2(24) as int,
                    pow2((ea - 1) as nat) as int,
                );
                lemma_pow2_adds(24, (ea - 1) as nat);
            }
            assert(pow2((ea + 23) as nat) <= pow2((eb + 22) as nat)) by {
                if ea + 23 != eb + 22 {
                    lemma_pow2_strictly_increases((ea + 23) as nat, (eb + 22) as nat);
                }
            }
        }
    }
}

/// Splitting a pattern into its fields and reassembling them restores the
/// identical pattern, for every pattern whatsoever.
pub proof fn lemma_fields_reassemble(bits: u32)
    ensures
        (FloatParts {
            sign: spec_sign_field(bits),
            exponent: spec_exponent_field(bits),
            mantissa: spec_mantissa_field(bits),
        }).spec_bits() == bits,
{
    assert(((bits >> 31) << 31) | (((bits >> 23) & 0xff) << 23) | (bits & 0x007f_ffff)
        == bits) by (bit_vector);
}

} // verus!
