use imagesize::{blob_size, ImageSize};

#[test]
fn exr_test() {
    let data: Vec<u8> = vec![
        0x76, 0x2f, 0x31, 0x01, 0x02, 0x00, 0x00, 0x00, 0x64, 0x61, 0x74, 0x61,
        0x57, 0x69, 0x6e, 0x64, 0x6f, 0x77, 0x00, 0x62, 0x6f, 0x78, 0x32, 0x69,
        0x00, 0x10, 0x00, 0x00, 0x00, 0x00, 0x00, 0x00, 0x00, 0x00, 0x00, 0x00,
        0x00, 0x63, 0x00, 0x00, 0x00, 0x63, 0x00, 0x00, 0x00,
    ];
    let dim = blob_size(&data).unwrap();
    assert_eq!(dim, ImageSize { width: 100, height: 100 });
}

