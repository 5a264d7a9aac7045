use imagesize::{blob_size, ImageSize};

#[test]
fn gif_test() {
    let data: Vec<u8> = vec![
        0x47, 0x49, 0x46, 0x38, 0x39, 0x61, 0x64, 0x00, 0x64, 0x00, 0x00, 0x00,
    ];
    let dim = blob_size(&data).unwrap();
    assert_eq!(dim, ImageSize { width: 100, height: 100 });
}

