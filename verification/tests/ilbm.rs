use imagesize::{blob_size, ImageSize};

#[test]
fn ilbm_test() {
    let data: Vec<u8> = vec![
        0x46, 0x4f, 0x52, 0x4d, 0x00, 0x00, 0x00, 0x64, 0x49, 0x4c, 0x42, 0x4d,
        0x42, 0x4d, 0x48, 0x44, 0x00, 0x00, 0x00, 0x14, 0x02, 0x80, 0x02, 0x00,
    ];
    let dim = blob_size(&data).unwrap();
    assert_eq!(dim, ImageSize { width: 640, height: 512 });
}

