use voutil::accent::{accent_hex, parse_accent_hex};

#[test]
fn accent_colour_text() {
    assert_eq!(accent_hex([255, 0, 75]), "#FF004B");
    assert_eq!(accent_hex([0, 0, 0]), "#000000");
    assert_eq!(accent_hex([10, 171, 9]), "#0AAB09");
}

#[test]
fn accent_colour_read_back() {
    assert_eq!(parse_accent_hex("#FF004B"), Some([255, 0, 75]));
    assert_eq!(parse_accent_hex("ff004b"), Some([255, 0, 75]));
    assert_eq!(parse_accent_hex("  #0aAB09\t"), Some([10, 171, 9]));
    assert_eq!(parse_accent_hex("##123456"), Some([0x12, 0x34, 0x56]));
    assert_eq!(parse_accent_hex("\u{3000}#abcdef\u{2028}"), Some([0xab, 0xcd, 0xef]));
    assert_eq!(parse_accent_hex(&accent_hex([1, 2, 254])), Some([1, 2, 254]));
}

#[test]
fn accent_colour_signs() {
    // Each pair is read as `u8::from_str_radix` reads it.
    assert_eq!(parse_accent_hex("+F+F+F"), Some([15, 15, 15]));
    assert_eq!(parse_accent_hex("-F0000"), None);
    assert_eq!(parse_accent_hex("++0000"), None);
}

#[test]
fn accent_colour_rejected() {
    assert_eq!(parse_accent_hex(""), None);
    assert_eq!(parse_accent_hex("#"), None);
    assert_eq!(parse_accent_hex("FF004"), None);
    assert_eq!(parse_accent_hex("FF004BB"), None);
    assert_eq!(parse_accent_hex("GG0000"), None);
    assert_eq!(parse_accent_hex("FF 04B"), None);
    assert_eq!(parse_accent_hex("ééé"), None);
    assert_eq!(parse_accent_hex("# FF004B"), None);
}
