use imagesize::{blob_size, ImageSize};

#[test]
fn jxl_valid_small() {
    let data: Vec<u8> = vec![
        0xff, 0x0a, 0x07, 0x46, 0x00, 0x00, 0x00, 0x00, 0x00, 0x00, 0x00, 0x00,
    ];
    let dim = blob_size(&data).unwrap();
    assert_eq!(dim, ImageSize { width: 32, height: 32 });
}

#[test]
fn jxl_valid_9w_9h() {
    let data: Vec<u8> = vec![
        0xff, 0x0a, 0xf8, 0x07, 0xfe, 0x05, 0x00, 0x00, 0x00, 0x00, 0x00, 0x00,
    ];
    let dim = blob_size(&data).unwrap();
    assert_eq!(dim, ImageSize { width: 256, height: 256 });
}

#[test]
fn jxl_valid_9w_13h() {
    let data: Vec<u8> = vec![
        0xff, 0x0a, 0xfa, 0x7f, 0x00, 0x40, 0x00, 0x00, 0x00, 0x00, 0x00, 0x00,
    ];
    let dim = blob_size(&data).unwrap();
    assert_eq!(dim, ImageSize { width: 1, height: 4096 });
}

#[test]
fn jxl_valid_9w_18h() {
    let data: Vec<u8> = vec![
        0xff, 0x0a, 0xfc, 0xff, 0x07, 0x00, 0x08, 0x00, 0x00, 0x00, 0x00, 0x00,
    ];
    let dim = blob_size(&data).unwrap();
    assert_eq!(dim, ImageSize { width: 1, height: 65536 });
}

#[test]
fn jxl_valid_9w_30h() {
    let data: Vec<u8> = vec![
        0xff, 0x0a, 0xfe, 0xff, 0xff, 0x07, 0x00, 0x80, 0x00, 0x00, 0x00, 0x00,
    ];
    let dim = blob_size(&data).unwrap();
    assert_eq!(dim, ImageSize { width: 1, height: 16777216 });
}

#[test]
fn jxl_valid_13w_9h() {
    let data: Vec<u8> = vec![
        0xff, 0x0a, 0x00, 0x80, 0xfe, 0x5f, 0x00, 0x00, 0x00, 0x00, 0x00, 0x00,
    ];
    let dim = blob_size(&data).unwrap();
    assert_eq!(dim, ImageSize { width: 4096, height: 1 });
}

#[test]
fn jxl_valid_18w_9h() {
    let data: Vec<u8> = vec![
        0xff, 0x0a, 0x00, 0x00, 0xff, 0xff, 0x09, 0x00, 0x00, 0x00, 0x00, 0x00,
    ];
    let dim = blob_size(&data).unwrap();
    assert_eq!(dim, ImageSize { width: 65536, height: 1 });
}

#[test]
fn jxl_valid_30w_9h() {
    let data: Vec<u8> = vec![
        0xff, 0x0a, 0x00, 0x80, 0xff, 0xff, 0xff, 0x81, 0x00, 0x00, 0x00, 0x00,
    ];
    let dim = blob_size(&data).unwrap();
    assert_eq!(dim, ImageSize { width: 16777216, height: 1 });
}

#[test]
fn jxl_valid_ratio1() {
    let data: Vec<u8> = vec![
        0xff, 0x0a, 0x18, 0x93, 0x00, 0x00, 0x00, 0x00, 0x00, 0x00, 0x00, 0x00,
    ];
    let dim = blob_size(&data).unwrap();
    assert_eq!(dim, ImageSize { width: 100, height: 100 });
}

#[test]
fn jxl_valid_ratio2() {
    let data: Vec<u8> = vec![
        0xff, 0x0a, 0x18, 0xa3, 0x00, 0x00, 0x00, 0x00, 0x00, 0x00, 0x00, 0x00,
    ];
    let dim = blob_size(&data).unwrap();
    assert_eq!(dim, ImageSize { width: 120, height: 100 });
}

#[test]
fn jxl_valid_ratio3() {
    let data: Vec<u8> = vec![
        0xff, 0x0a, 0x58, 0xb9, 0x00, 0x00, 0x00, 0x00, 0x00, 0x00, 0x00, 0x00,
    ];
    let dim = blob_size(&data).unwrap();
    assert_eq!(dim, ImageSize { width: 400, height: 300 });
}

#[test]
fn jxl_valid_ratio4() {
    let data: Vec<u8> = vec![
        0xff, 0x0a, 0x38, 0xc6, 0x00, 0x00, 0x00, 0x00, 0x00, 0x00, 0x00, 0x00,
    ];
    let dim = blob_size(&data).unwrap();
    assert_eq!(dim, ImageSize { width: 300, height: 200 });
}

#[test]
fn jxl_valid_ratio5() {
    let data: Vec<u8> = vec![
        0xff, 0x0a, 0xc8, 0xd2, 0x00, 0x00, 0x00, 0x00, 0x00, 0x00, 0x00, 0x00,
    ];
    let dim = blob_size(&data).unwrap();
    assert_eq!(dim, ImageSize { width: 160, height: 90 });
}

#[test]
fn jxl_valid_ratio6() {
    let data: Vec<u8> = vec![
        0xff, 0x0a, 0x78, 0xec, 0x00, 0x00, 0x00, 0x00, 0x00, 0x00, 0x00, 0x00,
    ];
    let dim = blob_size(&data).unwrap();
    assert_eq!(dim, ImageSize { width: 500, height: 400 });
}

#[test]
fn jxl_valid_ratio7() {
    let data: Vec<u8> = vec![
        0xff, 0x0a, 0x18, 0xf3, 0x00, 0x00, 0x00, 0x00, 0x00, 0x00, 0x00, 0x00,
    ];
    let dim = blob_size(&data).unwrap();
    assert_eq!(dim, ImageSize { width: 200, height: 100 });
}

#[test]
fn jxl_valid_box_jxlc() {
    let data: Vec<u8> = vec![
        0x00, 0x00, 0x00, 0x0c, 0x4a, 0x58, 0x4c, 0x20, 0x0d, 0x0a, 0x87, 0x0a,
        0x00, 0x00, 0x00, 0x0e, 0x6a, 0x78, 0x6c, 0x63, 0xff, 0x0a, 0xf8, 0x07,
        0xfe, 0x05,
    ];
    let dim = blob_size(&data).unwrap();
    assert_eq!(dim, ImageSize { width: 256, height: 256 });
}

#[test]
fn jxl_valid_box_jxlp() {
    let data: Vec<u8> = vec![
        0x00, 0x00, 0x00, 0x0c, 0x4a, 0x58, 0x4c, 0x20, 0x0d, 0x0a, 0x87, 0x0a,
        0x00, 0x00, 0x00, 0x0f, 0x6a, 0x78, 0x6c, 0x70, 0x00, 0x00, 0x00, 0x00,
        0xff, 0x0a, 0xf8, 0x00, 0x00, 0x00, 0x0f, 0x6a, 0x78, 0x6c, 0x70, 0x80,
        0x00, 0x00, 0x01, 0x07, 0xfe, 0x05,
    ];
    let dim = blob_size(&data).unwrap();
    assert_eq!(dim, ImageSize { width: 256, height: 256 });
}

#[test]
fn jxl_valid_orientation0() {
    let data: Vec<u8> = vec![
        0xff, 0x0a, 0xda, 0x1c, 0x28, 0xad, 0x08, 0x00, 0x00, 0x00, 0x00, 0x00,
    ];
    let dim = blob_size(&data).unwrap();
    assert_eq!(dim, ImageSize { width: 1386, height: 924 });
}

#[test]
fn jxl_valid_orientation4() {
    let data: Vec<u8> = vec![
        0xff, 0x0a, 0xda, 0x1c, 0x28, 0xad, 0x48, 0x00, 0x00, 0x00, 0x00, 0x00,
    ];
    let dim = blob_size(&data).unwrap();
    assert_eq!(dim, ImageSize { width: 924, height: 1386 });
}

#[test]
fn jxl_err_box() {
    let data: Vec<u8> = vec![
        0x00, 0x00, 0x00, 0x0c, 0x4a, 0x58, 0x4c, 0x20, 0x0d, 0x0a, 0x87, 0x0a,
        0x00, 0x00, 0x00, 0x02, 0x6a, 0x78, 0x6c, 0x63, 0x00, 0x00,
    ];
    assert!(blob_size(&data).is_err());
}

#[test]
fn jxl_err_header() {
    let data: Vec<u8> = vec![
        0x00, 0x00, 0x00, 0x0c, 0x4a, 0x58, 0x4c, 0x20, 0x0d, 0x0a, 0x87, 0x0a,
        0x00, 0x00, 0x00, 0x0a, 0x6a, 0x78, 0x6c, 0x63, 0xff, 0x0a,
    ];
    assert!(blob_size(&data).is_err());
}

#[test]
fn jxl_err_signature() {
    let data: Vec<u8> = vec![
        0x00, 0x00, 0x00, 0x0c, 0x4a, 0x58, 0x4c, 0x20, 0x0d, 0x0a, 0x87, 0x0a,
        0x00, 0x00, 0x00, 0x0e, 0x6a, 0x78, 0x6c, 0x63, 0x00, 0x00, 0x00, 0x00,
        0x00, 0x00,
    ];
    assert!(blob_size(&data).is_err());
}

