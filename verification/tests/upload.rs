use base64::Engine;

use imgstore::format::ImageFormat;
use imgstore::id::ImageId;
use imgstore::request::Base64Image;
use imgstore::response::Response;
use imgstore::storage::{MemoryStorage, Storage};
use imgstore::upload::{
    extract_type, upload_fetched, upload_multipart, FetchedImage, MultipartImage, UploadError,
};

fn test_png() -> Vec<u8> {
    vec![
        137, 80, 78, 71, 13, 10, 26, 10, 0, 0, 0, 13, 73, 72, 68, 82, 0, 0, 0, 1, 0, 0, 0, 1, 8,
        2, 0, 0, 0, 144, 119, 83, 222, 0, 0, 0, 12, 73, 68, 65, 84, 120, 156, 99, 248, 207, 192,
        0, 0, 3, 1, 1, 0, 201, 254, 146, 239, 0, 0, 0, 0, 73, 69, 78, 68, 174, 66, 96, 130,
    ]
}

fn png_base64() -> String {
    base64::engine::general_purpose::STANDARD.encode(test_png())
}

#[test]
fn upload_base64() {
    let mut storage = MemoryStorage::default();
    let image = Base64Image { format: ImageFormat::PNG, data: png_base64() };
    let response = imgstore::upload::upload_base64(&mut storage, vec![image]).unwrap();
    assert_eq!(response, Response::Ids(vec![ImageId(0)]));
    assert!(storage.load(ImageId(0)).is_ok());
}

#[test]
fn upload_base64_rejects_whole_batch_on_one_bad_entry() {
    let mut storage = MemoryStorage::default();
    let good = Base64Image { format: ImageFormat::PNG, data: png_base64() };
    let bad = Base64Image { format: ImageFormat::PNG, data: "%%%not-base64%%%".to_owned() };
    let also_good = Base64Image { format: ImageFormat::PNG, data: png_base64() };
    let response = imgstore::upload::upload_base64(&mut storage, vec![good, bad, also_good]).unwrap();
    assert!(matches!(response, Response::Error(_)));
    assert_eq!(storage.len(), 0);
    assert!(storage.load(ImageId(0)).is_err());
}

#[test]
fn upload_base64_rejects_valid_base64_with_invalid_image() {
    let mut storage = MemoryStorage::default();
    let text = base64::engine::general_purpose::STANDARD.encode([1u8, 2, 3, 4]);
    let bad = Base64Image { format: ImageFormat::PNG, data: text };
    let response = imgstore::upload::upload_base64(&mut storage, vec![bad]).unwrap();
    assert!(matches!(response, Response::Error(_)));
    assert_eq!(storage.len(), 0);
}

#[test]
fn upload_from_link() {
    let mut storage = MemoryStorage::default();
    let fetched = FetchedImage {
        content_type: Some("image/png".to_owned()),
        body: test_png(),
    };
    let response = upload_fetched(&mut storage, vec![fetched]).unwrap();
    assert_eq!(response, Response::Ids(vec![ImageId(0)]));
    assert!(storage.load(ImageId(0)).is_ok());
}

#[test]
fn remote_response_without_content_type_stores_nothing() {
    let mut storage = MemoryStorage::default();
    let good = FetchedImage {
        content_type: Some("image/png".to_owned()),
        body: test_png(),
    };
    let headerless = FetchedImage { content_type: None, body: test_png() };
    let response = upload_fetched(&mut storage, vec![good, headerless]).unwrap();
    assert!(matches!(response, Response::Error(_)));
    assert_eq!(storage.len(), 0);
    assert!(storage.load(ImageId(0)).is_err());
}

#[test]
fn remote_response_with_unmapped_content_type_stores_nothing() {
    let mut storage = MemoryStorage::default();
    let fetched = FetchedImage {
        content_type: Some("image/webp".to_owned()),
        body: test_png(),
    };
    let response = upload_fetched(&mut storage, vec![fetched]).unwrap();
    assert!(matches!(response, Response::Error(_)));
    assert_eq!(storage.len(), 0);
}

#[test]
fn extract_type_checks_type_and_subtype() {
    assert_eq!(extract_type("image", "png").unwrap(), ImageFormat::PNG);
    assert_eq!(extract_type("image", "gif").unwrap(), ImageFormat::GIF);
    assert!(extract_type("text", "png").is_err());
    assert!(extract_type("image", "svg").is_err());
}

#[test]
fn upload_multipart_stores_all_parts() {
    let mut storage = MemoryStorage::default();
    let part_one = MultipartImage {
        mime_type: "image".to_owned(),
        subtype: "png".to_owned(),
        body: test_png(),
    };
    let part_two = MultipartImage {
        mime_type: "image".to_owned(),
        subtype: "png".to_owned(),
        body: test_png(),
    };
    let ids = upload_multipart(&mut storage, vec![part_one, part_two]).unwrap();
    assert_eq!(ids, vec![ImageId(0), ImageId(1)]);
    assert_eq!(storage.len(), 2);
}

#[test]
fn upload_multipart_rejects_non_image_part() {
    let mut storage = MemoryStorage::default();
    let good = MultipartImage {
        mime_type: "image".to_owned(),
        subtype: "png".to_owned(),
        body: test_png(),
    };
    let bad = MultipartImage {
        mime_type: "text".to_owned(),
        subtype: "plain".to_owned(),
        body: vec![104, 105],
    };
    let result = upload_multipart(&mut storage, vec![good, bad]);
    assert!(matches!(result, Err(UploadError::Rejected { .. })));
    assert_eq!(storage.len(), 0);
}
