use imagesize::{blob_size, ImageSize};

#[test]
fn psd_test() {
    let data: Vec<u8> = vec![
        0x38, 0x42, 0x50, 0x53, 0x00, 0x01, 0x00, 0x00, 0x00, 0x00, 0x00, 0x00,
        0x00, 0x03, 0x00, 0x00, 0x01, 0xf4, 0x00, 0x00, 0x01, 0xf4,
    ];
    let dim = blob_size(&data).unwrap();
    assert_eq!(dim, ImageSize { width: 500, height: 500 });
}

