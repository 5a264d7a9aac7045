use imagesize::{blob_size, ImageSize};

#[test]
fn bmp_test() {
    let data: Vec<u8> = vec![
        0x42, 0x4d, 0x00, 0x00, 0x00, 0x00, 0x00, 0x00, 0x00, 0x00, 0x00, 0x00,
        0x00, 0x00, 0x00, 0x00, 0x00, 0x00, 0x00, 0x02, 0x00, 0x00, 0x00, 0x02,
        0x00, 0x00,
    ];
    let dim = blob_size(&data).unwrap();
    assert_eq!(dim, ImageSize { width: 512, height: 512 });
}

