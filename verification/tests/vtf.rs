use imagesize::{blob_size, ImageSize};

#[test]
fn vtf_test() {
    let data: Vec<u8> = vec![
        0x56, 0x54, 0x46, 0x00, 0x07, 0x00, 0x00, 0x00, 0x02, 0x00, 0x00, 0x00,
        0x50, 0x00, 0x00, 0x00, 0x00, 0x02, 0x00, 0x01,
    ];
    let dim = blob_size(&data).unwrap();
    assert_eq!(dim, ImageSize { width: 512, height: 256 });
}

