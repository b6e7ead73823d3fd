use editor_support::pixels::bgra_premul_to_rgba_straight;

#[test]
fn transparent_pixel_is_zero() {
    assert_eq!(bgra_premul_to_rgba_straight(&[10, 20, 30, 0]), vec![0, 0, 0, 0]);
}

#[test]
fn opaque_pixel_is_reordered() {
    assert_eq!(bgra_premul_to_rgba_straight(&[10, 20, 30, 255]), vec![30, 20, 10, 255]);
}

#[test]
fn half_alpha_is_rounded_and_capped() {
    // (64 * 255 + 64) / 128 = 128; (200 * 255 + 64) / 128 caps at 255; (1 * 255 + 64) / 128 = 2
    assert_eq!(bgra_premul_to_rgba_straight(&[1, 200, 64, 128]), vec![128, 255, 2, 128]);
}

#[test]
fn trailing_bytes_are_zero() {
    assert_eq!(
        bgra_premul_to_rgba_straight(&[0, 0, 255, 255, 9, 9, 9]),
        vec![255, 0, 0, 255, 0, 0, 0]
    );
    assert_eq!(bgra_premul_to_rgba_straight(&[]), Vec::<u8>::new());
}
