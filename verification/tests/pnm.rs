use imagesize::{blob_size, ImageSize};

#[test]
fn pnm_same_line_test() {
    let data: Vec<u8> = vec![
        0x50, 0x31, 0x20, 0x35, 0x31, 0x34, 0x20, 0x33, 0x32, 0x34, 0x0a, 0x30,
        0x20, 0x31, 0x20, 0x30, 0x20, 0x31, 0x0a,
    ];
    let dim = blob_size(&data).unwrap();
    assert_eq!(dim, ImageSize { width: 514, height: 324 });
}

#[test]
fn pnm_p1_test() {
    let data: Vec<u8> = vec![
        0x50, 0x31, 0x0a, 0x23, 0x20, 0x66, 0x65, 0x65, 0x70, 0x20, 0x62, 0x69,
        0x74, 0x6d, 0x61, 0x70, 0x0a, 0x32, 0x34, 0x20, 0x37, 0x0a, 0x30, 0x20,
        0x31, 0x20, 0x30, 0x20, 0x31, 0x20, 0x30, 0x20, 0x31, 0x0a,
    ];
    let dim = blob_size(&data).unwrap();
    assert_eq!(dim, ImageSize { width: 24, height: 7 });
}

#[test]
fn pnm_p2_test() {
    let data: Vec<u8> = vec![
        0x50, 0x32, 0x0a, 0x23, 0x20, 0x66, 0x65, 0x65, 0x70, 0x20, 0x67, 0x72,
        0x61, 0x79, 0x6d, 0x61, 0x70, 0x0a, 0x32, 0x34, 0x20, 0x37, 0x0a, 0x31,
        0x35, 0x0a, 0x30, 0x20, 0x33, 0x20, 0x33, 0x20, 0x33, 0x0a,
    ];
    let dim = blob_size(&data).unwrap();
    assert_eq!(dim, ImageSize { width: 24, height: 7 });
}

#[test]
fn pnm_p3_test() {
    let data: Vec<u8> = vec![
        0x50, 0x33, 0x0a, 0x34, 0x20, 0x34, 0x0a, 0x31, 0x35, 0x0a, 0x30, 0x20,
        0x30, 0x20, 0x30, 0x20, 0x30, 0x0a,
    ];
    let dim = blob_size(&data).unwrap();
    assert_eq!(dim, ImageSize { width: 4, height: 4 });
}

#[test]
fn pnm_p4_test() {
    let data: Vec<u8> = vec![
        0x50, 0x34, 0x0a, 0x32, 0x34, 0x20, 0x37, 0x0a, 0x00, 0x00, 0x00, 0x00,
        0x00, 0x00, 0x00, 0x00, 0x00, 0x00, 0x00, 0x00, 0x00, 0x00, 0x00, 0x00,
        0x00, 0x00, 0x00, 0x00, 0x00,
    ];
    let dim = blob_size(&data).unwrap();
    assert_eq!(dim, ImageSize { width: 24, height: 7 });
}

#[test]
fn pnm_p5_test() {
    let data: Vec<u8> = vec![
        0x50, 0x35, 0x0a, 0x32, 0x34, 0x20, 0x37, 0x0a, 0x31, 0x35, 0x0a, 0x00,
        0x00, 0x00, 0x00, 0x00, 0x00, 0x00, 0x00, 0x00, 0x00, 0x00, 0x00, 0x00,
        0x00, 0x00, 0x00, 0x00, 0x00, 0x00, 0x00, 0x00, 0x00, 0x00, 0x00,
    ];
    let dim = blob_size(&data).unwrap();
    assert_eq!(dim, ImageSize { width: 24, height: 7 });
}

