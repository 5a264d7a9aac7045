use imagesize::{blob_size, image_type, ImageSize, ImageType, PkmCompression};

#[test]
fn etc2_size_function() {
    let data: Vec<u8> = vec![
        0x50, 0x4b, 0x4d, 0x20, 0x32, 0x30, 0x00, 0x01, 0x00, 0x40, 0x00, 0x40,
        0x00, 0x40, 0x00, 0x40,
    ];
    let dim = blob_size(&data).unwrap();
    assert_eq!(dim, ImageSize { width: 64, height: 64 });
}

#[test]
fn etc2_type_detected() {
    let data: Vec<u8> = vec![
        0x50, 0x4b, 0x4d, 0x20, 0x32, 0x30, 0x00, 0x01, 0x00, 0x80, 0x00, 0x40,
        0x00, 0x80, 0x00, 0x40,
    ];
    assert_eq!(image_type(&data).unwrap(), ImageType::Etc2(PkmCompression::Etc2));
    let dim = blob_size(&data).unwrap();
    assert_eq!(dim, ImageSize { width: 128, height: 64 });
}


#[test]
fn etc2_format_detection() {
    let data: Vec<u8> = vec![
        0x50, 0x4b, 0x4d, 0x20, 0x32, 0x30, 0x00, 0x01, 0x00, 0x40, 0x00, 0x40,
        0x00, 0x40, 0x00, 0x40,
    ];
    match image_type(&data) {
        Ok(ImageType::Etc2(_)) => (),
        _ => panic!("ETC2 format not detected correctly"),
    }
}

#[test]
fn etc2_size_reading_64x64() {
    let data: Vec<u8> = vec![
        0x50, 0x4b, 0x4d, 0x20, 0x32, 0x30, 0x00, 0x01, 0x00, 0x40, 0x00, 0x40,
        0x00, 0x40, 0x00, 0x40,
    ];
    let img_size = blob_size(&data).unwrap();
    assert_eq!(img_size.width, 64);
    assert_eq!(img_size.height, 64);
}

#[test]
fn etc2_size_reading_128x64() {
    let data: Vec<u8> = vec![
        0x50, 0x4b, 0x4d, 0x20, 0x32, 0x30, 0x00, 0x01, 0x00, 0x80, 0x00, 0x40,
        0x00, 0x80, 0x00, 0x40,
    ];
    let img_size = blob_size(&data).unwrap();
    assert_eq!(img_size.width, 128);
    assert_eq!(img_size.height, 64);
}
