use fastmath::fields::{compose, decompose, FloatParts, MANTISSA_MASK};
use fastmath::sign::mulsign_bits;
use fastmath::trig::quadrant_sign;

#[test]
fn decompose_known_values() {
    let p = decompose(8.0f32.to_bits());
    assert_eq!(p.sign, 0);
    assert_eq!(p.exponent, 130);
    assert_eq!(p.mantissa, 0);

    let p = decompose((-0.5f32).to_bits());
    assert_eq!(p.sign, 1);
    assert_eq!(p.exponent, 126);
    assert_eq!(p.mantissa, 0);

    let p = decompose(27.0f32.to_bits());
    assert_eq!(p.sign, 0);
    assert_eq!(p.exponent, 131);
    assert_eq!(p.mantissa, 0x58_0000);

    let p = decompose(0.0f32.to_bits());
    assert_eq!(p.sign, 0);
    assert_eq!(p.exponent, 0);
    assert_eq!(p.mantissa, 0);
}

#[test]
fn decompose_compose_restores_pattern() {
    let samples: Vec<u32> = vec![
        0u32,
        1,
        0x0000_0001,
        0x1234_5678,
        0x3f80_0000,
        0x7f7f_ffff,
        0x7f80_0000,
        0x8000_0000,
        0xffff_ffff,
        1.5f32.to_bits(),
        (-27.25f32).to_bits(),
        f32::MIN_POSITIVE.to_bits(),
    ];
    for &bits in &samples {
        assert_eq!(compose(decompose(bits)), bits);
    }
    for i in 0..4096u32 {
        let bits = i.wrapping_mul(0x9e37_79b9);
        assert_eq!(compose(decompose(bits)), bits);
    }
}

#[test]
fn compose_builds_expected_pattern() {
    // sign 0, exponent 130, mantissa 0 is the pattern of 8.0
    let bits = compose(FloatParts { sign: 0, exponent: 130, mantissa: 0 });
    assert_eq!(f32::from_bits(bits), 8.0);
    // the largest finite fields give the largest finite float
    let bits = compose(FloatParts { sign: 0, exponent: 254, mantissa: MANTISSA_MASK });
    assert_eq!(f32::from_bits(bits), f32::MAX);
}

#[test]
fn decompose_matches_float_value() {
    for x in 1..1000 {
        let v = x as f32;
        let p = decompose(v.to_bits());
        assert_eq!(p.sign, 0);
        let significand = 1.0 + (p.mantissa as f64) / ((1u32 << 23) as f64);
        let value = significand * 2f64.powi(p.exponent as i32 - 127);
        assert_eq!(value as f32, v);
    }
}

#[test]
fn mulsign_multiplies_signs() {
    let values = [3.0f32, -3.0, 0.5, -0.5, 1.0, -1.0, 100.25, -100.25, 0.0, -0.0];
    for &a in &values {
        for &b in &values {
            let r = f32::from_bits(mulsign_bits(a.to_bits(), b.to_bits()));
            assert_eq!(r.to_bits(), (a * b.signum()).to_bits());
        }
    }
}

#[test]
fn positive_patterns_order_as_their_values() {
    let values = [
        0.0f32,
        f32::MIN_POSITIVE / 4.0, // subnormal
        f32::MIN_POSITIVE,
        0.1,
        0.5,
        1.0,
        1.5,
        2.0,
        27.0,
        1000.0,
        f32::MAX,
    ];
    for &a in &values {
        for &b in &values {
            assert_eq!(a.to_bits() <= b.to_bits(), a <= b);
            assert_eq!(a.to_bits() < b.to_bits(), a < b);
        }
    }
}

#[test]
fn quadrant_sign_follows_parity() {
    for m in -9i32..=9 {
        let s = quadrant_sign(m);
        if m.rem_euclid(2) == 0 {
            assert_eq!(s, -1);
        } else {
            assert_eq!(s, 1);
        }
    }
    assert_eq!(quadrant_sign(0), -1);
    assert_eq!(quadrant_sign(1), 1);
    assert_eq!(quadrant_sign(-1), 1);
}

#[test]
fn mulsign_keeps_magnitude() {
    let values = [3.0f32, -3.0, 0.125, -0.125, 1234.5, -1234.5];
    for &a in &values {
        for &b in &values {
            let r = f32::from_bits(mulsign_bits(a.to_bits(), b.to_bits()));
            assert_eq!(r.abs().to_bits(), a.abs().to_bits());
        }
    }
}
