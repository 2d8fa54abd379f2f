use ray_tracing::colour::Colour;
use ray_tracing::SCALE;

#[test]
fn display() {
    let colour = Colour::new(0, 32768, 65536);
    assert_eq!(colour.to_text().as_str(), "0 181 255");
}

#[test]
fn display_bounds() {
    let colour = Colour::new(-32768, 10 * 65536, -10 * 65536);
    assert_eq!(colour.to_text().as_str(), "0 255 0");
}

#[test]
fn random_bounded() {
    let colour = Colour::random_bounded(32768, 65536);
    assert!(colour.r() > 32768);
    assert!(colour.g() > 32768);
    assert!(colour.b() > 32768);
    assert!(colour.r() < 65536);
    assert!(colour.g() < 65536);
    assert!(colour.b() < 65536);
}

#[test]
fn random_bounded_equal_min_max() {
    let colour = Colour::random_bounded(32768, 32768);
    assert_eq!(colour.r(), 32768);
    assert_eq!(colour.g(), 32768);
    assert_eq!(colour.b(), 32768);
}

#[test]
fn random_channels_in_unit_range() {
    let colour = Colour::random();
    assert!(colour.r() >= 0 && colour.r() <= SCALE);
    assert!(colour.g() >= 0 && colour.g() <= SCALE);
    assert!(colour.b() >= 0 && colour.b() <= SCALE);
}

#[test]
fn full_intensity_quantizes_to_bytes() {
    let colour = Colour::new(SCALE, SCALE, SCALE);
    assert_eq!(colour.to_text().as_str(), "255 255 255");
}

#[test]
fn quarter_intensity_gamma() {
    // A quarter in linear light is one half after gamma: 0.5 * 256 = 128.
    let colour = Colour::new(SCALE / 4, SCALE / 4, SCALE / 4);
    assert_eq!(colour.to_text().as_str(), "128 128 128");
}

#[test]
fn colour_arithmetic() {
    let a = Colour::new(SCALE, SCALE / 2, 0);
    let b = Colour::new(SCALE / 2, SCALE / 2, SCALE);
    let sum = a.cadd(&b);
    assert_eq!((sum.r(), sum.g(), sum.b()), (3 * SCALE / 2, SCALE, SCALE));
    let prod = a.cmul(&b);
    assert_eq!((prod.r(), prod.g(), prod.b()), (SCALE / 2, SCALE / 4, 0));
    let scaled = a.cscale(SCALE / 2);
    assert_eq!((scaled.r(), scaled.g(), scaled.b()), (SCALE / 2, SCALE / 4, 0));
    let diff = a.csub(&b);
    assert_eq!((diff.r(), diff.g(), diff.b()), (SCALE / 2, 0, -SCALE));
}
