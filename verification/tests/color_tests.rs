use pathtracer::color::quantize;
use pathtracer::color::unit_fraction;
use pathtracer::color::Color;
use pathtracer::color::Rgb8;
use pathtracer::binary64::INFINITY_BITS;
use pathtracer::binary64::ONE_BITS;
use pathtracer::binary64::SIGN_BIT;
use pathtracer::binary64::ZERO_BITS;

fn color(r: f64, g: f64, b: f64) -> Color {
    Color::new(r.to_bits(), g.to_bits(), b.to_bits())
}

#[test]
fn constants_are_the_patterns_they_name() {
    assert_eq!(ZERO_BITS, 0.0f64.to_bits());
    assert_eq!(ONE_BITS, 1.0f64.to_bits());
    assert_eq!(INFINITY_BITS, f64::INFINITY.to_bits());
    assert_eq!(SIGN_BIT, (-0.0f64).to_bits());
}

#[test]
fn new_keeps_the_channels() {
    let c = color(0.25, 0.5, 0.75);
    assert_eq!(f64::from_bits(c.r), 0.25);
    assert_eq!(f64::from_bits(c.g), 0.5);
    assert_eq!(f64::from_bits(c.b), 0.75);
}

#[test]
fn black_is_all_zero() {
    assert_eq!(Color::black(), color(0.0, 0.0, 0.0));
    assert_eq!(Color::black().to_rgb(), Rgb8 { r: 0, g: 0, b: 0 });
}

#[test]
fn white_is_all_255() {
    assert_eq!(color(1.0, 1.0, 1.0).to_rgb(), Rgb8 { r: 255, g: 255, b: 255 });
}

#[test]
fn channels_above_one_are_clamped() {
    assert_eq!(color(1.5, 300.0, f64::INFINITY).to_rgb(), Rgb8 { r: 255, g: 255, b: 255 });
    assert_eq!(quantize(f64::MAX.to_bits()), 255);
    assert_eq!(quantize((1.0f64 + f64::EPSILON).to_bits()), 255);
}

#[test]
fn negative_channels_are_clamped() {
    assert_eq!(color(-0.0, -0.5, f64::NEG_INFINITY).to_rgb(), Rgb8 { r: 0, g: 0, b: 0 });
    assert_eq!(quantize((-1.0e-300f64).to_bits()), 0);
    assert_eq!(quantize((-255.0f64).to_bits()), 0);
}

#[test]
fn nan_channels_give_zero() {
    assert_eq!(quantize(f64::NAN.to_bits()), 0);
    assert_eq!(quantize(INFINITY_BITS + 1), 0);
    assert_eq!(quantize(u64::MAX), 0);
}

#[test]
fn tiny_channels_give_zero() {
    assert_eq!(quantize(1), 0);
    assert_eq!(quantize(f64::MIN_POSITIVE.to_bits()), 0);
    assert_eq!(quantize(1.0e-9f64.to_bits()), 0);
    assert_eq!(quantize(0.0019f64.to_bits()), 0);
}

#[test]
fn halves_round_up() {
    // 0.5 * 255 = 127.5 and 0.1 * 255 lies just above 25.5
    assert_eq!(quantize(0.5f64.to_bits()), 128);
    assert_eq!(quantize(0.1f64.to_bits()), 26);
    assert_eq!(quantize(0.002f64.to_bits()), 1);
}

#[test]
fn rounding_starts_from_the_exact_product() {
    // the number nearest to 0.3 lies just below 0.3, so 255 times it lies
    // just below 76.5
    assert_eq!(quantize(0.3f64.to_bits()), 76);
    assert_eq!(quantize(0.7f64.to_bits()), 178);
}

#[test]
fn exact_sample_values() {
    assert_eq!(color(0.2, 0.4, 0.8).to_rgb(), Rgb8 { r: 51, g: 102, b: 204 });
    assert_eq!(color(0.25, 0.75, 0.999).to_rgb(), Rgb8 { r: 64, g: 191, b: 255 });
    assert_eq!(quantize(0.99f64.to_bits()), 252);
}

#[test]
fn every_byte_comes_back() {
    for k in 0..=255u32 {
        let c = k as f64 / 255.0;
        assert_eq!(quantize(c.to_bits()) as u32, k);
    }
}

#[test]
fn quantize_is_monotone_on_a_sweep() {
    let mut last = 0u8;
    for i in 0..=20000u32 {
        let c = i as f64 / 10000.0;
        let q = quantize(c.to_bits());
        assert!(q >= last);
        let exact = (c.min(1.0) * 255.0 + 0.5).floor();
        assert!((q as f64 - exact).abs() <= 1.0);
        last = q;
    }
    assert_eq!(last, 255);
}

#[test]
fn samples_scale_to_the_nearest_number() {
    for k in 0..=255u8 {
        assert_eq!(unit_fraction(k), (k as f64 / 255.0).to_bits());
    }
}

#[test]
fn from_rbg_scales_each_channel() {
    assert_eq!(Color::from_rbg(0, 255, 51), color(0.0, 1.0, 0.2));
    assert_eq!(Color::from_rbg(1, 128, 254), color(1.0 / 255.0, 128.0 / 255.0, 254.0 / 255.0));
}

#[test]
fn pixels_survive_the_way_to_radiance_and_back() {
    for k in 0..=255u8 {
        let pixel = Rgb8 { r: k, g: 255 - k, b: k / 2 };
        assert_eq!(Color::from_rbg(pixel.r, pixel.g, pixel.b).to_rgb(), pixel);
    }
}

#[test]
fn finite_colours_hold_only_numbers() {
    assert!(color(0.0, 1.0, 250.0).finite());
    assert!(color(-3.0, -0.0, 1.0e-320).finite());
    assert!(!color(f64::NAN, 0.0, 0.0).finite());
    assert!(!color(0.0, f64::INFINITY, 0.0).finite());
    assert!(!color(0.0, 0.0, f64::NEG_INFINITY).finite());
}
