use imagesize::{blob_size, image_type, AtcCompression, ImageSize, ImageType};

#[test]
fn atc_type_detected() {
    let data: Vec<u8> = vec![
        0x50, 0x4b, 0x4d, 0x20, 0x32, 0x30, 0x8c, 0x92, 0x00, 0x40, 0x00, 0x40,
        0x00, 0x40, 0x00, 0x40,
    ];
    assert_eq!(image_type(&data).unwrap(), ImageType::Atc(AtcCompression::Rgb));
    let dim = blob_size(&data).unwrap();
    assert_eq!(dim, ImageSize { width: 64, height: 64 });
}

