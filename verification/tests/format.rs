use imgstore::format::ImageFormat;

fn all_formats() -> Vec<ImageFormat> {
    vec![
        ImageFormat::PNG,
        ImageFormat::JPEG,
        ImageFormat::GIF,
        ImageFormat::BMP,
        ImageFormat::ICO,
    ]
}

#[test]
fn name_round_trip() {
    for f in all_formats() {
        let parsed = ImageFormat::from_name(f.name()).unwrap();
        assert_eq!(parsed, f);
    }
}

#[test]
fn content_type_round_trip() {
    for f in all_formats() {
        let parsed = ImageFormat::from_content_type(f.content_type()).unwrap();
        assert_eq!(parsed, f);
    }
}

#[test]
fn code_round_trip() {
    for f in all_formats() {
        assert_eq!(ImageFormat::from_code(f.code()), Some(f));
    }
}

#[test]
fn expected_names_and_codes() {
    assert_eq!(ImageFormat::PNG.name(), "png");
    assert_eq!(ImageFormat::JPEG.name(), "jpeg");
    assert_eq!(ImageFormat::GIF.name(), "gif");
    assert_eq!(ImageFormat::BMP.name(), "bmp");
    assert_eq!(ImageFormat::ICO.name(), "ico");
    assert_eq!(ImageFormat::PNG.content_type(), "image/png");
    assert_eq!(ImageFormat::ICO.content_type(), "image/ico");
    assert_eq!(ImageFormat::PNG.code(), 1);
    assert_eq!(ImageFormat::JPEG.code(), 2);
    assert_eq!(ImageFormat::GIF.code(), 3);
    assert_eq!(ImageFormat::BMP.code(), 4);
    assert_eq!(ImageFormat::ICO.code(), 5);
}

#[test]
fn unknown_inputs_fail() {
    assert!(ImageFormat::from_name("tiff").is_err());
    assert!(ImageFormat::from_name("PNG").is_err());
    assert!(ImageFormat::from_name("").is_err());
    assert!(ImageFormat::from_name("image/png").is_err());
    assert!(ImageFormat::from_content_type("image/webp").is_err());
    assert!(ImageFormat::from_content_type("text/html").is_err());
    assert!(ImageFormat::from_content_type("png").is_err());
    assert!(ImageFormat::from_code(0).is_none());
    assert!(ImageFormat::from_code(6).is_none());
    assert!(ImageFormat::from_code(-1).is_none());
}
