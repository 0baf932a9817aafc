use voutil::naming::{
    encoding_for_extension, first_serial, parse_serial_number, parse_u32, plain_file_name,
    serial_file_name, wants_serial, SaveEncoding, SaveFormat,
};

#[test]
fn serial_numbers_are_parsed() {
    assert_eq!(parse_serial_number("photo (3)"), ("photo".to_string(), Some(3)));
    assert_eq!(parse_serial_number("photo"), ("photo".to_string(), None));
    assert_eq!(parse_serial_number("photo (b)"), ("photo (b)".to_string(), None));
    assert_eq!(parse_serial_number("x (1) (2)"), ("x (1)".to_string(), Some(2)));
    assert_eq!(parse_serial_number("x (+7)"), ("x".to_string(), Some(7)));
    assert_eq!(parse_serial_number("x (4294967296)"), ("x (4294967296)".to_string(), None));
    assert_eq!(parse_serial_number("x ()"), ("x ()".to_string(), None));
    assert_eq!(parse_serial_number(" (5)"), ("".to_string(), Some(5)));
    assert_eq!(parse_serial_number("été (12)"), ("été".to_string(), Some(12)));
    assert_eq!(parse_serial_number("a (1"), ("a (1".to_string(), None));
}

#[test]
fn u32_parsing_like_std() {
    for t in ["0", "42", "+42", "4294967295", "4294967296", "", "+", "-1", "1a", "007"] {
        assert_eq!(parse_u32(t), t.parse::<u32>().ok(), "{t}");
    }
}

#[test]
fn file_names() {
    assert_eq!(plain_file_name("photo", "png"), "photo.png");
    assert_eq!(serial_file_name("photo", 4, "jpg"), "photo (4).jpg");
    assert_eq!(parse_serial_number("photo (4)"), ("photo".to_string(), Some(4)));
    assert_eq!(first_serial(None), 1);
    assert_eq!(first_serial(Some(4)), 5);
    assert!(wants_serial(true, None));
    assert!(wants_serial(false, Some(1)));
    assert!(!wants_serial(false, None));
}

#[test]
fn save_formats() {
    assert_eq!(SaveFormat::from_setting("Jpg"), SaveFormat::Jpeg);
    assert_eq!(SaveFormat::from_setting("Bmp"), SaveFormat::Bmp);
    assert_eq!(SaveFormat::from_setting("WebP"), SaveFormat::WebP);
    assert_eq!(SaveFormat::from_setting("Png"), SaveFormat::Png);
    assert_eq!(SaveFormat::from_setting("anything"), SaveFormat::Png);
    assert_eq!(SaveFormat::Jpeg.filter_name(), "JPEG Image");
    assert_eq!(SaveFormat::Jpeg.extension(), "jpg");
    assert_eq!(SaveFormat::WebP.extension(), "webp");
    assert_eq!(
        SaveFormat::dialog_order(SaveFormat::Bmp),
        vec![SaveFormat::Bmp, SaveFormat::Png, SaveFormat::Jpeg, SaveFormat::WebP]
    );
    assert_eq!(
        SaveFormat::dialog_order(SaveFormat::Png),
        vec![SaveFormat::Png, SaveFormat::Jpeg, SaveFormat::Bmp, SaveFormat::WebP]
    );
}

#[test]
fn encodings_by_extension() {
    assert_eq!(encoding_for_extension("JPEG", 85), SaveEncoding::Jpg { quality: 85 });
    assert_eq!(encoding_for_extension("jpg", 70), SaveEncoding::Jpg { quality: 70 });
    assert_eq!(encoding_for_extension("Bmp", 70), SaveEncoding::Bmp);
    assert_eq!(encoding_for_extension("webp", 70), SaveEncoding::WebP);
    assert_eq!(encoding_for_extension("tiff", 70), SaveEncoding::Png);
    assert_eq!(encoding_for_extension("", 70), SaveEncoding::Png);
}
