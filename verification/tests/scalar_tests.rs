use raytrace::ray_tracer::scalar::Scalar;
use raytrace::ray_tracer::util::f64_is_equal;

fn s(x: f64) -> Scalar {
    Scalar::from_bits(x.to_bits())
}

fn f(x: Scalar) -> f64 {
    f64::from_bits(x.to_bits())
}

fn samples() -> Vec<f64> {
    vec![
        0.0,
        -0.0,
        1.0,
        -1.0,
        2.0,
        0.5,
        0.1,
        0.2,
        0.3,
        -0.7,
        3.5,
        1e-5,
        0.001,
        1e300,
        -1e300,
        1e-300,
        5e-324,
        -5e-324,
        2.2250738585072014e-308,
        123456.789,
        -98765.4321,
        f64::MAX,
        f64::MIN,
        f64::INFINITY,
        f64::NEG_INFINITY,
        f64::NAN,
    ]
}

fn same_value(got: Scalar, want: f64) -> bool {
    if want.is_nan() {
        f(got).is_nan()
    } else {
        got.to_bits() == want.to_bits()
    }
}

#[test]
fn test_named_constants() {
    assert_eq!(f(Scalar::zero()), 0.0);
    assert_eq!(Scalar::zero().to_bits(), 0);
    assert_eq!(f(Scalar::one()), 1.0);
    assert_eq!(f(Scalar::two()), 2.0);
    assert_eq!(f(Scalar::four()), 4.0);
    assert_eq!(f(Scalar::max()), f64::MAX);
}

#[test]
fn test_addition_agrees_with_the_hardware() {
    for a in samples() {
        for b in samples() {
            assert!(same_value(s(a).add(s(b)), a + b), "{:e} + {:e}", a, b);
        }
    }
}

#[test]
fn test_subtraction_agrees_with_the_hardware() {
    for a in samples() {
        for b in samples() {
            assert!(same_value(s(a).sub(s(b)), a - b), "{:e} - {:e}", a, b);
        }
    }
}

#[test]
fn test_multiplication_agrees_with_the_hardware() {
    for a in samples() {
        for b in samples() {
            assert!(same_value(s(a).mul(s(b)), a * b), "{:e} * {:e}", a, b);
        }
    }
}

#[test]
fn test_division_agrees_with_the_hardware() {
    for a in samples() {
        for b in samples() {
            assert!(same_value(s(a).div(s(b)), a / b), "{:e} / {:e}", a, b);
        }
    }
}

#[test]
fn test_square_root_agrees_with_the_hardware() {
    for a in samples() {
        assert!(same_value(s(a).sqrt(), a.sqrt()), "sqrt {:e}", a);
    }
    assert_eq!(f(s(14.0).sqrt()), 14.0_f64.sqrt());
    assert_eq!(f(s(2.0).sqrt()), 2.0_f64.sqrt());
    assert_eq!(f(s(100.0).sqrt()), 10.0);
}

#[test]
fn test_arithmetic_agrees_with_the_hardware_on_scattered_patterns() {
    let mut state = 0x2545_F491_4F6C_DD1Du64;
    let mut n = 0;
    while n < 20_000 {
        state ^= state << 13;
        state ^= state >> 7;
        state ^= state << 17;
        let a = f64::from_bits(state);
        state ^= state << 13;
        state ^= state >> 7;
        state ^= state << 17;
        let b = f64::from_bits(state);
        assert!(same_value(s(a).add(s(b)), a + b), "{:e} + {:e}", a, b);
        assert!(same_value(s(a).sub(s(b)), a - b), "{:e} - {:e}", a, b);
        assert!(same_value(s(a).mul(s(b)), a * b), "{:e} * {:e}", a, b);
        assert!(same_value(s(a).div(s(b)), a / b), "{:e} / {:e}", a, b);
        assert!(same_value(s(a).sqrt(), a.sqrt()), "sqrt {:e}", a);
        n += 1;
    }
}

#[test]
fn test_division_by_zero_is_not_guarded() {
    assert_eq!(f(s(1.0).div(s(0.0))), f64::INFINITY);
    assert_eq!(f(s(-1.0).div(s(0.0))), f64::NEG_INFINITY);
    assert!(f(s(0.0).div(s(0.0))).is_nan());
}

#[test]
fn test_integers_convert_exactly() {
    for x in [0, 1, -1, 2, 7, -300, 65_535, 1 << 24, i32::MAX, i32::MIN, i32::MIN + 1] {
        assert_eq!(Scalar::from_i32(x).to_bits(), f64::from(x).to_bits());
    }
}

#[test]
fn test_negation_and_magnitude_touch_the_sign_only() {
    for a in samples() {
        assert_eq!(s(a).neg().to_bits(), (-a).to_bits());
        assert_eq!(s(a).abs().to_bits(), a.abs().to_bits());
    }
}

#[test]
fn test_comparisons_agree_with_the_hardware() {
    for a in samples() {
        assert_eq!(s(a).is_nan(), a.is_nan());
        for b in samples() {
            assert_eq!(s(a).lt(s(b)), a < b, "{:e} < {:e}", a, b);
            assert_eq!(s(a).le(s(b)), a <= b, "{:e} <= {:e}", a, b);
            assert_eq!(s(a).gt(s(b)), a > b, "{:e} > {:e}", a, b);
            assert_eq!(s(a).ge(s(b)), a >= b, "{:e} >= {:e}", a, b);
            assert_eq!(s(a).same(s(b)), a == b, "{:e} == {:e}", a, b);
        }
    }
}

#[test]
fn test_the_two_zeros_are_equal_and_a_nan_equals_nothing() {
    assert!(s(0.0).same(s(-0.0)));
    assert!(!s(0.0).lt(s(-0.0)));
    assert!(s(-0.0).le(s(0.0)));
    assert!(!s(f64::NAN).same(s(f64::NAN)));
    assert!(!s(f64::NAN).le(s(f64::NAN)));
}

#[test]
fn test_approximate_equality() {
    assert!(f64_is_equal(s(1.0), s(1.0)));
    assert!(f64_is_equal(s(1.0), s(1.000009)));
    assert!(f64_is_equal(s(1.000009), s(1.0)));
    assert!(!f64_is_equal(s(1.0), s(1.00001)));
    assert!(!f64_is_equal(s(1.0), s(1.00002)));
    assert!(!f64_is_equal(s(0.0), s(0.00001)));
    assert!(f64_is_equal(s(0.0), s(-0.0)));
    assert!(!f64_is_equal(s(f64::NAN), s(f64::NAN)));
    assert!(!f64_is_equal(s(f64::INFINITY), s(f64::INFINITY)));
}

#[test]
fn test_integers_convert_as_the_hardware_converts_them() {
    let mut k = 0;
    while k < 31 {
        for x in [1i32 << k, (1i32 << k) - 1, (1i32 << k) + 1, -(1i32 << k), -(1i32 << k) - 1, 1 - (1i32 << k)] {
            assert_eq!(Scalar::from_i32(x).to_bits(), f64::from(x).to_bits(), "at {}", x);
        }
        k += 1;
    }
    let mut state = 0x1234_5678_9ABC_DEF1u64;
    let mut n = 0;
    while n < 100_000 {
        state ^= state << 13;
        state ^= state >> 7;
        state ^= state << 17;
        let x = state as u32 as i32;
        assert_eq!(Scalar::from_i32(x).to_bits(), f64::from(x).to_bits(), "at {}", x);
        n += 1;
    }
}

#[test]
fn test_square_roots_are_correctly_rounded() {
    // Perfect squares, their neighbours, and the ends of the range.
    let mut k = 1u64;
    while k < 3_000 {
        let square = (k * k) as f64;
        for v in [square, f64::from_bits(square.to_bits() + 1), f64::from_bits(square.to_bits() - 1)] {
            assert_eq!(s(v).sqrt().to_bits(), v.sqrt().to_bits(), "sqrt {:e}", v);
        }
        k += 1;
    }
    for v in [
        5e-324,
        1e-323,
        2.225073858507201e-308,
        2.2250738585072014e-308,
        4.450147717014403e-308,
        0.25,
        0.5,
        0.9999999999999999,
        1.0,
        1.0000000000000002,
        2.0,
        3.9999999999999996,
        4.0,
        f64::MAX,
        8.98846567431158e307,
    ] {
        assert_eq!(s(v).sqrt().to_bits(), v.sqrt().to_bits(), "sqrt {:e}", v);
    }
    assert_eq!(s(0.0).sqrt().to_bits(), 0.0f64.to_bits());
    assert_eq!(s(-0.0).sqrt().to_bits(), (-0.0f64).to_bits());
    assert_eq!(f(s(f64::INFINITY).sqrt()), f64::INFINITY);
    assert!(f(s(-1.0).sqrt()).is_nan());
    assert!(f(s(-5e-324).sqrt()).is_nan());
    assert!(f(s(f64::NEG_INFINITY).sqrt()).is_nan());
    assert!(f(s(f64::NAN).sqrt()).is_nan());
    assert!(f(Scalar::from_bits(0x7FF0_0000_0000_0001).sqrt()).is_nan());
    assert!(f(Scalar::from_bits(0xFFFF_FFFF_FFFF_FFFF).sqrt()).is_nan());
}

#[test]
fn test_square_roots_agree_with_the_hardware_on_scattered_patterns() {
    let mut state = 0x6A09_E667_F3BC_C909u64;
    let mut n = 0;
    while n < 300_000 {
        state ^= state << 13;
        state ^= state >> 7;
        state ^= state << 17;
        let v = f64::from_bits(state >> 1);
        assert!(same_value(s(v).sqrt(), v.sqrt()), "sqrt {:e}", v);
        // Small patterns are subnormal numbers.
        let small = f64::from_bits(state >> 13);
        assert!(same_value(s(small).sqrt(), small.sqrt()), "sqrt {:e}", small);
        n += 1;
    }
}
