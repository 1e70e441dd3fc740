//! Tests of the `#rrggbb` notation.

use olfarve::rgb8_to_hex;

#[test]
fn reference_triplet() {
    assert_eq!(rgb8_to_hex((255, 128, 0)), "#ff8000");
}

#[test]
fn endpoint_triplets() {
    assert_eq!(rgb8_to_hex((255, 255, 255)), "#ffffff");
    assert_eq!(rgb8_to_hex((0, 0, 0)), "#000000");
    assert_eq!(rgb8_to_hex((255, 0, 0)), "#ff0000");
}

#[test]
fn channels_keep_their_order() {
    assert_eq!(rgb8_to_hex((0x12, 0x34, 0x56)), "#123456");
    assert_eq!(rgb8_to_hex((0x56, 0x34, 0x12)), "#563412");
}

#[test]
fn small_values_are_zero_padded() {
    assert_eq!(rgb8_to_hex((10, 10, 10)), "#0a0a0a");
    assert_eq!(rgb8_to_hex((1, 0, 15)), "#01000f");
}

#[test]
fn every_byte_is_two_lowercase_digits() {
    for v in 0..=255u8 {
        let text = rgb8_to_hex((v, 255 - v, v / 3));
        assert_eq!(text, format!("#{:02x}{:02x}{:02x}", v, 255 - v, v / 3));
        assert_eq!(text, text.to_lowercase());
        assert_eq!(text.len(), 7);
        assert!(text.starts_with('#'));
    }
}

#[test]
fn notation_reads_back() {
    for v in 0..=255u8 {
        let rgb = (v, v.wrapping_mul(7), 255 - v);
        let text = rgb8_to_hex(rgb);
        let channel = |i: usize| u8::from_str_radix(&text[i..i + 2], 16).unwrap();
        assert_eq!((channel(1), channel(3), channel(5)), rgb);
    }
}
