use splatcom::float_bits::{
    f32_bits_eq, f32_bits_lt, F32_HALF, F32_NINETY, F32_ONE, F32_SIXTY, F32_ZERO,
};

fn samples() -> Vec<f32> {
    vec![
        0.0,
        -0.0,
        1.0,
        -1.0,
        0.5,
        -0.5,
        90.0,
        60.0,
        1.0000001,
        0.99999994,
        f32::MIN_POSITIVE,
        -f32::MIN_POSITIVE,
        f32::from_bits(1),
        f32::from_bits(0x8000_0001),
        f32::MAX,
        f32::MIN,
        f32::INFINITY,
        f32::NEG_INFINITY,
        f32::NAN,
        -f32::NAN,
        f32::from_bits(0x7f80_0001),
        f32::from_bits(0xffc0_0000),
        123456.78,
        -98765.43,
    ]
}

#[test]
fn constants_are_the_bit_patterns_of_their_values() {
    assert_eq!(F32_ZERO, 0.0f32.to_bits());
    assert_eq!(F32_HALF, 0.5f32.to_bits());
    assert_eq!(F32_ONE, 1.0f32.to_bits());
    assert_eq!(F32_SIXTY, 60.0f32.to_bits());
    assert_eq!(F32_NINETY, 90.0f32.to_bits());
}

#[test]
fn less_than_agrees_with_hardware_comparison() {
    for a in samples() {
        for b in samples() {
            assert_eq!(f32_bits_lt(a.to_bits(), b.to_bits()), a < b, "{:?} < {:?}", a, b);
        }
    }
}

#[test]
fn equality_agrees_with_hardware_comparison() {
    for a in samples() {
        for b in samples() {
            assert_eq!(f32_bits_eq(a.to_bits(), b.to_bits()), a == b, "{:?} == {:?}", a, b);
        }
    }
}

#[test]
fn zeros_are_equal_and_nan_is_unordered() {
    assert!(f32_bits_eq(0.0f32.to_bits(), (-0.0f32).to_bits()));
    assert!(!f32_bits_lt((-0.0f32).to_bits(), 0.0f32.to_bits()));
    assert!(!f32_bits_eq(f32::NAN.to_bits(), f32::NAN.to_bits()));
    assert!(!f32_bits_lt(f32::NAN.to_bits(), 0.0f32.to_bits()));
    assert!(!f32_bits_lt(0.0f32.to_bits(), f32::NAN.to_bits()));
    assert!(f32_bits_lt((-1.0f32).to_bits(), 0.0f32.to_bits()));
}
