use imgstore::format::ImageFormat;
use imgstore::id::ImageId;
use imgstore::image::Image;
use imgstore::preview::{PreviewError, PREVIEW_BOUND};
use imgstore::storage::{MemoryStorage, Storage};

fn test_png() -> Vec<u8> {
    vec![
        137, 80, 78, 71, 13, 10, 26, 10, 0, 0, 0, 13, 73, 72, 68, 82, 0, 0, 0, 1, 0, 0, 0, 1, 8,
        2, 0, 0, 0, 144, 119, 83, 222, 0, 0, 0, 12, 73, 68, 65, 84, 120, 156, 99, 248, 207, 192,
        0, 0, 3, 1, 1, 0, 201, 254, 146, 239, 0, 0, 0, 0, 73, 69, 78, 68, 174, 66, 96, 130,
    ]
}

#[test]
fn generate_preview() {
    let png = test_png();
    let image = Image::decode(&png, ImageFormat::PNG).unwrap();
    let mut storage = MemoryStorage::default();
    storage.store(vec![image]).unwrap();

    let (format, body) = imgstore::preview::generate_preview(&storage, ImageId(0)).unwrap();
    assert_eq!(format, ImageFormat::PNG);
    assert_eq!(format.content_type(), "image/png");

    let preview = Image::decode(&body, ImageFormat::PNG).unwrap();
    assert_eq!(preview.format(), ImageFormat::PNG);
    assert!(preview.width() <= PREVIEW_BOUND);
    assert!(preview.height() <= PREVIEW_BOUND);

    let loaded = storage.load(ImageId(0)).unwrap();
    assert_eq!(body, loaded.preview((100, 100)).data().unwrap());
}

#[test]
fn preview_of_unknown_id_is_not_found() {
    let storage = MemoryStorage::default();
    let result = imgstore::preview::generate_preview(&storage, ImageId(0));
    assert!(matches!(result, Err(PreviewError::NotFound)));
    let result = imgstore::preview::generate_preview(&storage, ImageId(7));
    assert!(matches!(result, Err(PreviewError::NotFound)));
}

fn test_bmp_wide() -> Vec<u8> {
    vec![
        66, 77, 62, 0, 0, 0, 0, 0, 0, 0, 54, 0, 0, 0, 40, 0, 0, 0, 2, 0, 0, 0, 1, 0, 0, 0, 1, 0,
        24, 0, 0, 0, 0, 0, 8, 0, 0, 0, 19, 11, 0, 0, 19, 11, 0, 0, 0, 0, 0, 0, 0, 0, 0, 0, 0, 0,
        255, 0, 255, 0, 0, 0,
    ]
}

#[test]
fn resize_keeps_aspect_ratio_and_format() {
    let bmp = test_bmp_wide();
    let image = Image::decode(&bmp, ImageFormat::BMP).unwrap();
    assert_eq!(image.width(), 2);
    assert_eq!(image.height(), 1);

    let large = image.preview((100, 100));
    assert_eq!(large.format(), ImageFormat::BMP);
    assert_eq!(large.width(), 100);
    assert_eq!(large.height(), 50);

    let small = image.preview((10, 10));
    assert_eq!(small.width(), 10);
    assert_eq!(small.height(), 5);
}
