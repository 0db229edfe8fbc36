use imgstore::format::ImageFormat;
use imgstore::id::ImageId;
use imgstore::image::Image;
use imgstore::image::LoadedImage;
use imgstore::storage::{LoadError, MemoryStorage, Storage};

fn test_png() -> Vec<u8> {
    vec![
        137, 80, 78, 71, 13, 10, 26, 10, 0, 0, 0, 13, 73, 72, 68, 82, 0, 0, 0, 1, 0, 0, 0, 1, 8,
        2, 0, 0, 0, 144, 119, 83, 222, 0, 0, 0, 12, 73, 68, 65, 84, 120, 156, 99, 248, 207, 192,
        0, 0, 3, 1, 1, 0, 201, 254, 146, 239, 0, 0, 0, 0, 73, 69, 78, 68, 174, 66, 96, 130,
    ]
}

#[test]
fn store_assigns_dense_distinct_ids_in_order() {
    let png = test_png();
    let a = Image::decode(&png, ImageFormat::PNG).unwrap();
    let b = Image::decode(&png, ImageFormat::PNG).unwrap();
    let c = Image::decode(&png, ImageFormat::PNG).unwrap();
    let mut storage = MemoryStorage::default();
    let ids = storage.store(vec![a, b]).unwrap();
    assert_eq!(ids, vec![ImageId(0), ImageId(1)]);
    let more = storage.store(vec![c]).unwrap();
    assert_eq!(more, vec![ImageId(2)]);
    assert_eq!(storage.len(), 3);
}

#[test]
fn empty_batch_stores_nothing() {
    let mut storage = MemoryStorage::default();
    let ids = storage.store(Vec::new()).unwrap();
    assert!(ids.is_empty());
    assert_eq!(storage.len(), 0);
}

#[test]
fn load_returns_reencoding_of_stored_payload() {
    let png = test_png();
    let image = Image::decode(&png, ImageFormat::PNG).unwrap();
    let payload = image.insertable().unwrap();
    assert_eq!(payload.format, 1);
    let mut storage = MemoryStorage::default();
    let ids = storage.store(vec![image]).unwrap();
    let loaded = storage.load(ids[0]).unwrap();
    assert_eq!(loaded.format(), ImageFormat::PNG);
    assert_eq!(loaded.data().unwrap(), payload.data);
}

#[test]
fn unknown_id_is_not_found() {
    let storage = MemoryStorage::default();
    assert!(matches!(storage.load(ImageId(0)), Err(LoadError::NotFound)));
    let png = test_png();
    let image = Image::decode(&png, ImageFormat::PNG).unwrap();
    let mut storage = MemoryStorage::default();
    storage.store(vec![image]).unwrap();
    assert!(matches!(storage.load(ImageId(1)), Err(LoadError::NotFound)));
    assert!(matches!(storage.load(ImageId(-1)), Err(LoadError::NotFound)));
    assert!(storage.load(ImageId(0)).is_ok());
}

#[test]
fn decode_rejects_wrong_format() {
    let png = test_png();
    assert!(Image::decode(&png, ImageFormat::GIF).is_err());
    assert!(Image::decode(&[1, 2, 3], ImageFormat::PNG).is_err());
    assert!(Image::decode(&[], ImageFormat::BMP).is_err());
}

#[test]
fn store_load_preview_scenario() {
    let png = test_png();
    let image = Image::decode(&png, ImageFormat::PNG).unwrap();
    let mut storage = MemoryStorage::default();
    let ids = storage.store(vec![image]).unwrap();
    assert_eq!(ids, vec![ImageId(0)]);
    let loaded = storage.load(ImageId(0)).unwrap();
    assert_eq!(loaded.format(), ImageFormat::PNG);
    let preview = loaded.preview((100, 100));
    assert!(preview.width() <= 100);
    assert!(preview.height() <= 100);
    assert_eq!(preview.format(), ImageFormat::PNG);
}

#[test]
fn loaded_record_decodes_by_wire_code() {
    let record = LoadedImage { id: 0, format: 1, data: test_png() };
    let image = record.decode().unwrap();
    assert_eq!(image.format(), ImageFormat::PNG);

    let unknown_code = LoadedImage { id: 0, format: 9, data: test_png() };
    assert!(unknown_code.decode().is_err());

    let wrong_payload = LoadedImage { id: 0, format: 3, data: test_png() };
    assert!(wrong_payload.decode().is_err());
}

fn test_bmp() -> Vec<u8> {
    vec![
        66, 77, 62, 0, 0, 0, 0, 0, 0, 0, 54, 0, 0, 0, 40, 0, 0, 0, 2, 0, 0, 0, 1, 0, 0, 0, 1, 0,
        24, 0, 0, 0, 0, 0, 8, 0, 0, 0, 19, 11, 0, 0, 19, 11, 0, 0, 0, 0, 0, 0, 0, 0, 0, 0, 0, 0,
        255, 0, 255, 0, 0, 0,
    ]
}

#[test]
fn bmp_record_round_trips_through_storage() {
    let bmp = test_bmp();
    let image = Image::decode(&bmp, ImageFormat::BMP).unwrap();
    let payload = image.insertable().unwrap();
    assert_eq!(payload.format, 4);
    let mut storage = MemoryStorage::default();
    let ids = storage.store(vec![image]).unwrap();
    let loaded = storage.load(ids[0]).unwrap();
    assert_eq!(loaded.format(), ImageFormat::BMP);
    assert_eq!(loaded.data().unwrap(), payload.data);
}
