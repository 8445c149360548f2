//! Sign transfer by bitwise composition: no rounding, no branching.

use vstd::prelude::*;

verus! {

use crate::fields::{
    scaled_value, spec_exponent_field, spec_mantissa_field, spec_sign_field, SIGN_MASK,
};

/// The pattern of `x` with `y`'s sign bit folded in by exclusive or.
pub open spec fn spec_mulsign_bits(x: u32, y: u32) -> u32 {
    x ^ (y & SIGN_MASK)
}

/// Transfer a sign between patterns: the result carries `x`'s exponent and
/// mantissa fields unchanged, and its sign bit is the exclusive or of the
/// two inputs' sign bits — so when `x` is a magnitude (sign 0), the result
/// carries `y`'s sign outright.
pub fn mulsign_bits(x: u32, y: u32) -> (r: u32)
    ensures
        r == spec_mulsign_bits(x, y),
        spec_exponent_field(r) == spec_exponent_field(x),
        spec_mantissa_field(r) == spec_mantissa_field(x),
        spec_sign_field(r) == spec_sign_field(x) ^ spec_sign_field(y),
        spec_sign_field(x) == 0 ==> spec_sign_field(r) == spec_sign_field(y),
{
    let r = x ^ (y & SIGN_MASK);
    proof {
        assert({
            let r = x ^ (y & 0x8000_0000);
            (r >> 23) & 0xff == (x >> 23) & 0xff && r & 0x007f_ffff == x & 0x007f_ffff
                && r >> 31 == (x >> 31) ^ (y >> 31)
        }) by (bit_vector);
        assert((x >> 31) == 0 ==> ((x >> 31) ^ (y >> 31)) == y >> 31) by (bit_vector);
    }
    r
}

/// Sign transfer keeps the magnitude exactly: the transferred pattern
/// denotes the same absolute value as `x` does.
pub proof fn lemma_mulsign_magnitude(x: u32, y: u32)
    ensures
        scaled_value(spec_mulsign_bits(x, y)) == scaled_value(x)
            || scaled_value(spec_mulsign_bits(x, y)) == -scaled_value(x),
        spec_sign_field(x) == 0 && spec_sign_field(y) == 0 ==> scaled_value(
            spec_mulsign_bits(x, y),
        ) == scaled_value(x),
{
    assert({
        let r = x ^ (y & 0x8000_0000);
        (r >> 23) & 0xff == (x >> 23) & 0xff && r & 0x007f_ffff == x & 0x007f_ffff && (x >> 31
            == 0 && y >> 31 == 0 ==> r >> 31 == 0)
    }) by (bit_vector);
}

} // verus!
