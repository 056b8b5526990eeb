use raytracer::color::Color;

#[test]
fn new_clamps_out_of_range_channels() {
    assert_eq!(Color::new(300, -10, 128), Color::new(255, 0, 128));
    assert_eq!(Color::new(300, -10, 128), Color { r: 255, g: 0, b: 128 });
}

#[test]
fn new_keeps_in_range_channels() {
    let c = Color::new(0, 128, 255);
    assert_eq!(c, Color { r: 0, g: 128, b: 255 });
}

#[test]
fn clamp_edges() {
    assert_eq!(Color::clamp(-1), 0);
    assert_eq!(Color::clamp(0), 0);
    assert_eq!(Color::clamp(255), 255);
    assert_eq!(Color::clamp(256), 255);
    assert_eq!(Color::clamp(i32::MIN), 0);
    assert_eq!(Color::clamp(i32::MAX), 255);
}

#[test]
fn from_hex_splits_channels() {
    let c = Color::from_hex(0x123456);
    assert_eq!(c, Color { r: 0x12, g: 0x34, b: 0x56 });
    assert_eq!(Color::from_hex(0xFFFFFF), Color { r: 255, g: 255, b: 255 });
    assert_eq!(Color::from_hex(0x000000), Color { r: 0, g: 0, b: 0 });
}

#[test]
fn from_hex_ignores_high_byte() {
    assert_eq!(Color::from_hex(0xAB123456), Color { r: 0x12, g: 0x34, b: 0x56 });
}

#[test]
fn add_saturates_per_channel() {
    let a = Color::new(200, 10, 255);
    let b = Color::new(100, 20, 1);
    assert_eq!(a.add(&b), Color { r: 255, g: 30, b: 255 });
}

#[test]
fn repeated_add_never_exceeds_255() {
    let step = Color::new(90, 90, 90);
    let mut acc = Color::new(0, 0, 0);
    for _ in 0..10 {
        acc = acc.add(&step);
        assert!(acc.r <= 255 && acc.g <= 255 && acc.b <= 255);
    }
    assert_eq!(acc, Color { r: 255, g: 255, b: 255 });
}

#[test]
fn black_is_all_zero() {
    assert_eq!(Color::black(), Color { r: 0, g: 0, b: 0 });
}

#[test]
fn to_u32_packs_rgb() {
    let c = Color { r: 0x12, g: 0x34, b: 0x56 };
    assert_eq!(c.to_u32(), 0x123456);
    assert_eq!(Color::black().to_u32(), 0);
    assert_eq!(Color::new(255, 255, 255).to_u32(), 0xFFFFFF);
}

#[test]
fn to_u32_inverts_from_hex() {
    let hex: u32 = 0x8040C0;
    assert_eq!(Color::from_hex(hex).to_u32(), hex);
}
