use fastmath::exp2::exp2_exponent_bits;
use fastmath::fields::{decompose, ONE_BITS};
use fastmath::log2::{log2_exponent_bits, log2_unit_bits};

#[test]
fn log2_unit_is_the_significand() {
    for x in 1..1000 {
        let v = x as f32;
        let m = f32::from_bits(log2_unit_bits(v.to_bits()));
        assert!(1.0 <= m && m < 2.0);
        // scaling the significand back by the value's power of two restores it
        let e = decompose(v.to_bits()).exponent;
        let power = f32::from_bits(e << 23);
        assert_eq!(m * power, v);
    }
}

#[test]
fn log2_unit_of_power_of_two_is_one() {
    for k in -10i32..=10 {
        let bits = ((k + 127) as u32) << 23;
        assert_eq!(f32::from_bits(bits), 2f32.powi(k));
        assert_eq!(log2_unit_bits(bits), ONE_BITS);
    }
}

#[test]
fn log2_exponent_encodes_offset_integer() {
    for x in 1..1000 {
        let v = x as f32;
        let e = decompose(v.to_bits()).exponent;
        let encoded = f32::from_bits(log2_exponent_bits(v.to_bits()));
        assert_eq!(encoded, 256.0 + e as f32);
        // one exact subtraction recovers the unbiased exponent
        assert_eq!(encoded - 383.0, (e as i32 - 127) as f32);
    }
}

#[test]
fn log2_front_end_is_exact_on_powers_of_two() {
    // on 2^k both synthesized patterns are exact: the significand pattern
    // is one, and the exponent pattern minus 383 is k itself
    for k in -126i32..=127 {
        let bits = ((k + 127) as u32) << 23;
        assert_eq!(log2_unit_bits(bits), ONE_BITS);
        let encoded = f32::from_bits(log2_exponent_bits(bits));
        assert_eq!(encoded - 383.0, k as f32);
    }
}

#[test]
fn exp2_exponent_constructs_power_of_two() {
    for n in -126i32..=127 {
        let y = (n as f32 + 383.0).to_bits();
        assert_eq!(decompose(y).exponent, 135);
        let r = exp2_exponent_bits(y);
        let expected = ((n + 127) as u32) << 23;
        assert_eq!(r, expected);
        assert_eq!(f32::from_bits(r), 2f32.powi(n));
    }
}

#[test]
fn exp2_exponent_collapses_to_zero_at_the_bottom_edge() {
    // an argument below the normal exponent range, -127 <= x < -126,
    // puts 383 + x in [256, 257) and the construction yields the zero
    // pattern instead of a power of two
    for &v in &[256.0f32, 256.25, 256.5, 256.99] {
        let r = exp2_exponent_bits(v.to_bits());
        assert_eq!(r, 0);
        assert_eq!(f32::from_bits(r), 0.0);
    }
}

#[test]
fn exp2_exponent_ignores_the_fraction() {
    // any argument with the same integer part synthesizes the same power
    for n in -10i32..=10 {
        let whole = exp2_exponent_bits((n as f32 + 383.0).to_bits());
        for tenth in 1..10 {
            let y = (n as f32 + tenth as f32 * 0.1 + 383.0).to_bits();
            assert_eq!(exp2_exponent_bits(y), whole);
        }
    }
}
