//! The bit-pattern float operations agree with the hardware `f32` ones.

use bevy_settings_plus::ieee::{
    f32_bits_clamp, f32_bits_eq, f32_bits_lt, F32_HALF, F32_ONE, F32_QUARTER, F32_THREE, F32_ZERO,
};

fn samples() -> Vec<f32> {
    vec![
        0.0,
        -0.0,
        0.25,
        0.2499999,
        0.5,
        1.0,
        1.0000001,
        1.5,
        3.0,
        5.0,
        -0.2,
        -1.0,
        -3.5,
        f32::MIN_POSITIVE,
        -f32::MIN_POSITIVE,
        f32::from_bits(1),
        f32::from_bits(0x8000_0001),
        f32::MAX,
        f32::MIN,
        f32::INFINITY,
        f32::NEG_INFINITY,
        f32::NAN,
        f32::from_bits(0xFFC0_0000),
        f32::from_bits(0x7F80_0001),
        f32::from_bits(0xFF80_0001),
    ]
}

#[test]
fn constants_are_the_named_values() {
    assert_eq!(F32_ZERO, 0.0f32.to_bits());
    assert_eq!(F32_QUARTER, 0.25f32.to_bits());
    assert_eq!(F32_HALF, 0.5f32.to_bits());
    assert_eq!(F32_ONE, 1.0f32.to_bits());
    assert_eq!(F32_THREE, 3.0f32.to_bits());
}

#[test]
fn bit_equality_matches_f32_equality() {
    for a in samples() {
        for b in samples() {
            assert_eq!(f32_bits_eq(a.to_bits(), b.to_bits()), a == b, "{a:?} == {b:?}");
        }
    }
}

#[test]
fn bit_order_matches_f32_order() {
    for a in samples() {
        for b in samples() {
            assert_eq!(f32_bits_lt(a.to_bits(), b.to_bits()), a < b, "{a:?} < {b:?}");
        }
    }
}

#[test]
fn bit_clamp_matches_f32_clamp() {
    for (lo, hi) in [(0.25f32, 1.0f32), (0.0, 1.0), (0.5, 3.0), (-1.0, -0.0), (-0.0, 0.0)] {
        for x in samples() {
            assert_eq!(
                f32_bits_clamp(x.to_bits(), lo.to_bits(), hi.to_bits()),
                x.clamp(lo, hi).to_bits(),
                "{x:?}.clamp({lo:?}, {hi:?})"
            );
        }
    }
}

#[test]
fn clamp_keeps_nan_and_negative_zero() {
    let nan = f32::NAN.to_bits();
    assert_eq!(f32_bits_clamp(nan, F32_QUARTER, F32_ONE), nan);
    let neg_zero = (-0.0f32).to_bits();
    assert_eq!(f32_bits_clamp(neg_zero, F32_ZERO, F32_ONE), neg_zero);
    assert_eq!(f32_bits_clamp((-0.2f32).to_bits(), F32_ZERO, F32_ONE), F32_ZERO);
    assert_eq!(f32_bits_clamp(7.0f32.to_bits(), F32_HALF, F32_THREE), F32_THREE);
}
