use imagesize::{blob_size, ImageSize};

#[test]
fn jpeg_test() {
    let data: Vec<u8> = vec![
        0xff, 0xd8, 0xff, 0xe0, 0x00, 0x10, 0x4a, 0x46, 0x49, 0x46, 0x00, 0x01,
        0x01, 0x00, 0x00, 0x01, 0x00, 0x01, 0x00, 0x00, 0xff, 0xc0, 0x00, 0x11,
        0x08, 0x01, 0x2a, 0x02, 0xb2, 0x03, 0x00, 0x00, 0x00, 0x00, 0x00, 0x00,
        0x00, 0x00, 0x00,
    ];
    let dim = blob_size(&data).unwrap();
    assert_eq!(dim, ImageSize { width: 690, height: 298 });
}

#[test]
fn jpeg_extra_info_test() {
    let data: Vec<u8> = vec![
        0xff, 0xd8, 0xff, 0xe0, 0x00, 0x10, 0x4a, 0x46, 0x49, 0x46, 0x00, 0x01,
        0x01, 0x00, 0x00, 0x01, 0x00, 0x01, 0x00, 0x00, 0xff, 0xe1, 0x00, 0x0a,
        0x45, 0x78, 0x69, 0x66, 0x00, 0x00, 0x00, 0x00, 0xff, 0xc0, 0x00, 0x11,
        0x08, 0x03, 0x4c, 0x05, 0xdc, 0x03, 0x00, 0x00, 0x00, 0x00, 0x00, 0x00,
        0x00, 0x00, 0x00,
    ];
    let dim = blob_size(&data).unwrap();
    assert_eq!(dim, ImageSize { width: 1500, height: 844 });
}

#[test]
fn issue_9_test() {
    let data: Vec<u8> = vec![
        0xff, 0xd8, 0xff, 0xe1, 0x00, 0x0a, 0x45, 0x78, 0x69, 0x66, 0x00, 0x00,
        0x00, 0x00, 0xff, 0xc0, 0x00, 0x11, 0x08, 0x07, 0x70, 0x05, 0x50, 0x03,
        0x00, 0x00, 0x00, 0x00, 0x00, 0x00, 0x00, 0x00, 0x00,
    ];
    let dim = blob_size(&data).unwrap();
    assert_eq!(dim, ImageSize { width: 1360, height: 1904 });
}

#[test]
fn jpg_unexpected_eof() {
    let data: Vec<u8> = vec![
        0xff, 0xd8, 0xff, 0xe0, 0x00, 0x10, 0x4a, 0x46, 0x49, 0x46, 0x00, 0x01,
        0x01, 0x00, 0x00, 0x01, 0x00, 0x01, 0x00, 0x00, 0xff, 0xc0, 0x00, 0x11,
        0x08, 0x07, 0xd8, 0x0b, 0xe7, 0x03, 0x00, 0x00, 0x00, 0x00, 0x00, 0x00,
        0x00, 0x00, 0x00,
    ];
    let dim = blob_size(&data).unwrap();
    assert_eq!(dim, ImageSize { width: 3047, height: 2008 });
}

#[test]
fn jpg_unexpected_eof_2() {
    let data: Vec<u8> = vec![
        0xff, 0xd8, 0xff, 0xe0, 0x00, 0x10, 0x4a, 0x46, 0x49, 0x46, 0x00, 0x01,
        0x01, 0x00, 0x00, 0x01, 0x00, 0x01, 0x00, 0x00, 0xff, 0xe1, 0x00, 0x0a,
        0x45, 0x78, 0x69, 0x66, 0x00, 0x00, 0x00, 0x00, 0xff, 0xc0, 0x00, 0x11,
        0x08, 0x0c, 0xf9, 0x13, 0x74, 0x03, 0x00, 0x00, 0x00, 0x00, 0x00, 0x00,
        0x00, 0x00, 0x00,
    ];
    let dim = blob_size(&data).unwrap();
    assert_eq!(dim, ImageSize { width: 4980, height: 3321 });
}

#[test]
fn jpg_unexpected_eof_3() {
    let data: Vec<u8> = vec![
        0xff, 0xd8, 0xff, 0xe0, 0x00, 0x10, 0x4a, 0x46, 0x49, 0x46, 0x00, 0x01,
        0x01, 0x00, 0x00, 0x01, 0x00, 0x01, 0x00, 0x00, 0xff, 0xc0, 0x00, 0x11,
        0x08, 0x07, 0xce, 0x0b, 0xb3, 0x03, 0x00, 0x00, 0x00, 0x00, 0x00, 0x00,
        0x00, 0x00, 0x00,
    ];
    let dim = blob_size(&data).unwrap();
    assert_eq!(dim, ImageSize { width: 2995, height: 1998 });
}

#[test]
fn jpg_wrong_size() {
    let data: Vec<u8> = vec![
        0xff, 0xd8, 0xff, 0xe0, 0x00, 0x10, 0x4a, 0x46, 0x49, 0x46, 0x00, 0x01,
        0x01, 0x00, 0x00, 0x01, 0x00, 0x01, 0x00, 0x00, 0xff, 0xc0, 0x00, 0x11,
        0x08, 0x04, 0x38, 0x04, 0x38, 0x03, 0x00, 0x00, 0x00, 0x00, 0x00, 0x00,
        0x00, 0x00, 0x00,
    ];
    let dim = blob_size(&data).unwrap();
    assert_eq!(dim, ImageSize { width: 1080, height: 1080 });
}

// A thumbnail embedded as a nested marker stream must not be reported.
#[test]
fn jpeg_nested_thumbnail_reports_outer() {
    let data: Vec<u8> = vec![
        0xff, 0xd8, 0xff, 0xd8, 0x00, 0x04, 0xff, 0xc0, 0xff, 0xc0, 0x00, 0x0b,
        0x08, 0x00, 0x05, 0x00, 0x07, 0x00, 0x00, 0x00, 0x00, 0xff, 0xd9, 0x00,
        0x02, 0xff, 0xc0, 0x00, 0x11, 0x08, 0x00, 0x64, 0x00, 0xc8, 0x03, 0x00,
        0x00, 0x00, 0x00, 0x00, 0x00, 0x00, 0x00, 0x00,
    ];
    let dim = blob_size(&data).unwrap();
    assert_eq!(dim, ImageSize { width: 200, height: 100 });
}

#[test]
fn jpeg_depth_underflow_is_error() {
    let data: Vec<u8> = vec![
        0xff, 0xd8, 0xff, 0xd9, 0x00, 0x00, 0x00, 0x00, 0x00, 0x00, 0x00, 0x00,
    ];
    assert!(blob_size(&data).is_err());
}

