use imagesize::{blob_size, ImageSize};

#[test]
fn tga_test() {
    let data: Vec<u8> = vec![
        0x00, 0x00, 0x02, 0x00, 0x00, 0x00, 0x00, 0x00, 0x00, 0x00, 0x00, 0x00,
        0x64, 0x00, 0x43, 0x00, 0x18, 0x00,
    ];
    let dim = blob_size(&data).unwrap();
    assert_eq!(dim, ImageSize { width: 100, height: 67 });
}

#[test]
fn tga_type_1_test() {
    let data: Vec<u8> = vec![
        0x00, 0x01, 0x01, 0x00, 0x00, 0x00, 0x00, 0x00, 0x00, 0x00, 0x00, 0x00,
        0x5e, 0x01, 0x5e, 0x01, 0x18, 0x00,
    ];
    let dim = blob_size(&data).unwrap();
    assert_eq!(dim, ImageSize { width: 350, height: 350 });
}

#[test]
fn tga_type_2_test() {
    let data: Vec<u8> = vec![
        0x00, 0x00, 0x02, 0x00, 0x00, 0x00, 0x00, 0x00, 0x00, 0x00, 0x00, 0x00,
        0x64, 0x00, 0x43, 0x00, 0x18, 0x00,
    ];
    let dim = blob_size(&data).unwrap();
    assert_eq!(dim, ImageSize { width: 100, height: 67 });
}

#[test]
fn tga_type_10_test() {
    let data: Vec<u8> = vec![
        0x00, 0x00, 0x0a, 0x00, 0x00, 0x00, 0x00, 0x00, 0x00, 0x00, 0x00, 0x00,
        0x80, 0x02, 0xe0, 0x01, 0x18, 0x00,
    ];
    let dim = blob_size(&data).unwrap();
    assert_eq!(dim, ImageSize { width: 640, height: 480 });
}

