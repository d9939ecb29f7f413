use mediapipe_rotations::scalar::{is_finite, is_nan, is_negative, less_than, negate, INFINITY, NAN, SIGN, ZERO};

#[test]
fn constants_match_the_numbers_they_stand_for() {
    assert_eq!(ZERO, 0.0f32.to_bits());
    assert_eq!(SIGN, (-0.0f32).to_bits());
    assert_eq!(INFINITY, f32::INFINITY.to_bits());
    assert!(f32::from_bits(NAN).is_nan());
    assert_eq!(NAN, 0x7fc0_0000);
}

#[test]
fn nan_and_finite_agree_with_the_hardware() {
    let samples: [f32; 12] = [
        0.0,
        -0.0,
        1.0,
        -1.0,
        f32::MIN_POSITIVE,
        -f32::MIN_POSITIVE,
        1.0e-45,
        f32::MAX,
        f32::MIN,
        f32::INFINITY,
        f32::NEG_INFINITY,
        f32::NAN,
    ];
    for x in samples {
        assert_eq!(is_nan(x.to_bits()), x.is_nan());
        assert_eq!(is_finite(x.to_bits()), x.is_finite());
        assert_eq!(is_negative(x.to_bits()), x < 0.0);
    }
    assert!(is_nan(0xffc0_0001));
    assert!(is_nan(0x7f80_0001));
    assert!(!is_finite(0xffc0_0001));
}

#[test]
fn negate_flips_exactly_the_sign() {
    assert_eq!(negate(1.5f32.to_bits()), (-1.5f32).to_bits());
    assert_eq!(negate((-1.5f32).to_bits()), 1.5f32.to_bits());
    assert_eq!(negate(ZERO), SIGN);
    assert_eq!(negate(INFINITY), f32::NEG_INFINITY.to_bits());
    assert_eq!(negate(NAN), 0xffc0_0000);
    assert!(is_nan(negate(NAN)));
}

#[test]
fn less_than_agrees_with_the_hardware() {
    let samples: [f32; 13] = [
        0.0,
        -0.0,
        1.0,
        -1.0,
        0.5,
        -0.5,
        1.0e-45,
        -1.0e-45,
        f32::MAX,
        f32::MIN,
        f32::INFINITY,
        f32::NEG_INFINITY,
        f32::NAN,
    ];
    for a in samples {
        for b in samples {
            assert_eq!(less_than(a.to_bits(), b.to_bits()), a < b, "{} < {}", a, b);
        }
    }
}

#[test]
fn bit_level_answers_agree_with_the_hardware_on_many_patterns() {
    let mut state: u64 = 0x9e37_79b9_7f4a_7c15;
    let mut next = move || {
        state = state.wrapping_mul(6364136223846793005).wrapping_add(1442695040888963407);
        (state >> 32) as u32
    };
    for _ in 0..200_000 {
        let a = next();
        let b = next();
        let (x, y) = (f32::from_bits(a), f32::from_bits(b));
        assert_eq!(is_nan(a), x.is_nan());
        assert_eq!(is_finite(a), x.is_finite());
        assert_eq!(is_negative(a), x < 0.0);
        assert_eq!(negate(a), (-x).to_bits());
        assert_eq!(less_than(a, b), x < y);
        assert_eq!(less_than(b, a), y < x);
        let near = a ^ (b & 0x8000_00ff);
        assert_eq!(less_than(a, near), x < f32::from_bits(near));
    }
}
