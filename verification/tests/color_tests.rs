use raytrace::ray_tracer::color::{channel_to_u8, Color};
use raytrace::ray_tracer::scalar::Scalar;

fn s(x: f64) -> Scalar {
    Scalar::from_bits(x.to_bits())
}

fn color(r: f64, g: f64, b: f64) -> Color {
    Color::new(s(r), s(g), s(b))
}

fn native_byte(channel: f64) -> u8 {
    let mut value = channel;
    if value > 1.0 {
        value = 1.0;
    } else if value < 0.0 {
        value = 0.0;
    }
    (255.0 * value) as u8
}

#[test]
fn test_adding_colors() {
    let c1 = color(0.9, 0.6, 0.75);
    let c2 = color(0.7, 0.1, 0.25);

    assert_eq!(c1 + c2, color(1.6, 0.7, 1.0));
}

#[test]
fn test_subtracting_colors() {
    let c1 = color(0.9, 0.6, 0.75);
    let c2 = color(0.7, 0.1, 0.25);

    assert_eq!(c1 - c2, color(0.2, 0.5, 0.5));
}

#[test]
fn test_multiplying_a_color_by_a_scaler() {
    let c = color(0.2, 0.3, 0.4);

    assert_eq!(c * s(2.0), color(0.4, 0.6, 0.8));
}

#[test]
fn test_multiplying_colors() {
    let c1 = color(1.0, 0.2, 0.4);
    let c2 = color(0.9, 1.0, 0.1);

    assert_eq!(c1 * c2, color(0.9, 0.2, 0.04));
}

#[test]
fn test_new_colors_are_opaque() {
    assert_eq!(color(0.1, 0.2, 0.3).a, 255);
    assert_eq!(Color::black().as_u8_array(), [0, 0, 0, 255]);
    assert_eq!(Color::white().as_u8_array(), [255, 255, 255, 255]);
}

#[test]
fn test_arithmetic_keeps_the_opacity_of_the_left_operand() {
    let mut left = color(0.5, 0.5, 0.5);
    left.a = 17;
    let right = color(0.25, 0.25, 0.25);

    assert_eq!((left + right).a, 17);
    assert_eq!((left - right).a, 17);
    assert_eq!((left * right).a, 17);
    assert_eq!((left * s(3.0)).a, 17);
    assert_eq!((right + left).a, 255);
    assert_eq!(left.as_u8_array(), [127, 127, 127, 17]);
}

#[test]
fn test_colors_of_different_opacity_are_not_equal() {
    let mut left = color(0.5, 0.5, 0.5);
    left.a = 17;

    assert!(left != color(0.5, 0.5, 0.5));
    assert!(color(0.5, 0.5, 0.5) == color(0.500001, 0.5, 0.5));
    assert!(color(0.5, 0.5, 0.5) != color(0.6, 0.5, 0.5));
}

#[test]
fn test_accumulation_does_not_clamp() {
    let sum = color(0.9, 0.9, 0.9) + color(0.9, 0.9, 0.9);

    assert_eq!(sum.r.to_bits(), (0.9f64 + 0.9).to_bits());
    assert_eq!(sum.as_u8_array(), [255, 255, 255, 255]);
}

#[test]
fn test_every_pairing_of_owned_and_borrowed_colors() {
    let a = color(0.9, 0.6, 0.75);
    let b = color(0.7, 0.1, 0.25);
    let k = s(0.5);

    assert_eq!(&a + &b, a + b);
    assert_eq!(&a + b, a + b);
    assert_eq!(a + &b, a + b);
    assert_eq!(&a - &b, a - b);
    assert_eq!(&a * &b, a * b);
    assert_eq!(&a * &k, a * k);
    assert_eq!(&a * k, a * k);
    assert_eq!(a * &k, a * k);
}

#[test]
fn test_channel_bytes_at_named_values() {
    assert_eq!(channel_to_u8(s(0.0)), 0);
    assert_eq!(channel_to_u8(s(-0.0)), 0);
    assert_eq!(channel_to_u8(s(1.0)), 255);
    assert_eq!(channel_to_u8(s(0.5)), 127);
    assert_eq!(channel_to_u8(s(0.25)), 63);
    assert_eq!(channel_to_u8(s(0.2)), 51);
    assert_eq!(channel_to_u8(s(0.999)), 254);
}

#[test]
fn test_channel_above_one_clamps_to_255() {
    assert_eq!(channel_to_u8(s(1.0000000000000002)), 255);
    assert_eq!(channel_to_u8(s(1.6)), 255);
    assert_eq!(channel_to_u8(s(1e300)), 255);
    assert_eq!(channel_to_u8(s(f64::MAX)), 255);
    assert_eq!(channel_to_u8(s(f64::INFINITY)), 255);
}

#[test]
fn test_channel_below_zero_clamps_to_0() {
    assert_eq!(channel_to_u8(s(-5e-324)), 0);
    assert_eq!(channel_to_u8(s(-0.3)), 0);
    assert_eq!(channel_to_u8(s(-1e300)), 0);
    assert_eq!(channel_to_u8(s(f64::NEG_INFINITY)), 0);
}

#[test]
fn test_channel_that_is_no_number_gives_0() {
    assert_eq!(channel_to_u8(s(f64::NAN)), 0);
    assert_eq!(channel_to_u8(s(-f64::NAN)), 0);
    assert_eq!(channel_to_u8(Scalar::from_bits(0x7FF0_0000_0000_0001)), 0);
    assert_eq!(channel_to_u8(Scalar::from_bits(0xFFFF_FFFF_FFFF_FFFF)), 0);
}

#[test]
fn test_channel_bytes_agree_with_the_hardware_on_a_grid() {
    let mut i = 0u32;
    while i <= 100_000 {
        let v = f64::from(i) / 100_000.0;
        assert_eq!(channel_to_u8(s(v)), native_byte(v), "at {}", v);
        i += 1;
    }
}

#[test]
fn test_channel_bytes_agree_with_the_hardware_around_every_step() {
    let mut k = 0u32;
    while k <= 255 {
        let at = f64::from(k) / 255.0;
        let bits = at.to_bits();
        let mut d = 0u64;
        while d < 40 {
            let above = f64::from_bits(bits + d);
            assert_eq!(channel_to_u8(s(above)), native_byte(above), "at {:e}", above);
            if bits >= d {
                let below = f64::from_bits(bits - d);
                assert_eq!(channel_to_u8(s(below)), native_byte(below), "at {:e}", below);
            }
            d += 1;
        }
        k += 1;
    }
}

#[test]
fn test_channel_bytes_agree_with_the_hardware_on_small_and_odd_values() {
    let values = [
        5e-324,
        2.2250738585072014e-308,
        2.225073858507201e-308,
        1e-300,
        1e-10,
        0.00390625,
        0.003906249999999999,
        0.003921568627450980,
        0.003921568627450981,
        0.00392156862745098,
        0.9999999999999999,
        0.9999999999999998,
        0.996078431372549,
        0.9960784313725489,
        0.9960784313725491,
        0.4999999999999999,
        0.5000000000000001,
    ];
    for v in values {
        assert_eq!(channel_to_u8(s(v)), native_byte(v), "at {:e}", v);
    }
}

#[test]
fn test_channel_bytes_agree_with_the_hardware_on_scattered_patterns() {
    let mut state = 0x9E37_79B9_7F4A_7C15u64;
    let mut n = 0;
    while n < 200_000 {
        state ^= state << 13;
        state ^= state >> 7;
        state ^= state << 17;
        let v = f64::from_bits(state);
        assert_eq!(channel_to_u8(s(v)), native_byte(v), "at {:e}", v);
        let unit = f64::from_bits(state % 0x3FF0_0000_0000_0001);
        assert_eq!(channel_to_u8(s(unit)), native_byte(unit), "at {:e}", unit);
        n += 1;
    }
}

#[test]
fn test_channel_bytes_never_decrease() {
    let mut last = 0u8;
    let mut i = -2_000i32;
    while i <= 12_000 {
        let v = f64::from(i) / 10_000.0;
        let byte = channel_to_u8(s(v));
        assert!(byte >= last, "at {}", v);
        last = byte;
        i += 1;
    }
    assert_eq!(last, 255);
}

#[test]
fn test_channel_bytes_agree_with_the_hardware_for_every_exponent_that_counts() {
    // From 2^-9 up to one, with scattered significands and those that end in
    // the patterns where rounding has to break a tie.
    let mut state = 0xD1B5_4A32_D192_ED03u64;
    let mut exponent = 1014u64;
    while exponent <= 1022 {
        let mut n = 0;
        while n < 20_000 {
            state ^= state << 13;
            state ^= state >> 7;
            state ^= state << 17;
            let fraction = state & 0xF_FFFF_FFFF_FFFF;
            for low in [fraction, fraction & !0xFF, (fraction & !0xFF) | 0x40, (fraction & !0xFF) | 0x80, (fraction & !0xFF) | 0xC0] {
                let v = f64::from_bits((exponent << 52) | low);
                assert_eq!(channel_to_u8(s(v)), native_byte(v), "at {:e}", v);
            }
            n += 1;
        }
        exponent += 1;
    }
}
