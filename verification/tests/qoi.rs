use imagesize::{blob_size, ImageSize};

#[test]
fn qoi_test() {
    let data: Vec<u8> = vec![
        0x71, 0x6f, 0x69, 0x66, 0x00, 0x00, 0x03, 0x20, 0x00, 0x00, 0x02, 0x58,
    ];
    let dim = blob_size(&data).unwrap();
    assert_eq!(dim, ImageSize { width: 800, height: 600 });
}

