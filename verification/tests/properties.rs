use imagesize::{blob_size, image_type, reader_type, ImageError, ImageSize, ImageType};

#[test]
fn heif_rotation_one_swaps_axes() {
    let data: Vec<u8> = vec![
        0x00, 0x00, 0x00, 0x10, 0x66, 0x74, 0x79, 0x70, 0x68, 0x65, 0x69, 0x63,
        0x00, 0x00, 0x00, 0x00, 0x00, 0x00, 0x00, 0x39, 0x6d, 0x65, 0x74, 0x61,
        0x00, 0x00, 0x00, 0x00, 0x00, 0x00, 0x00, 0x2d, 0x69, 0x70, 0x72, 0x70,
        0x00, 0x00, 0x00, 0x25, 0x69, 0x70, 0x63, 0x6f, 0x00, 0x00, 0x00, 0x14,
        0x69, 0x73, 0x70, 0x65, 0x00, 0x00, 0x00, 0x00, 0x00, 0x00, 0x02, 0x80,
        0x00, 0x00, 0x01, 0xe0, 0x00, 0x00, 0x00, 0x09, 0x69, 0x72, 0x6f, 0x74,
        0x01,
    ];
    let dim = blob_size(&data).unwrap();
    assert_eq!(dim, ImageSize { width: 480, height: 640 });
}

#[test]
fn heif_rotation_two_keeps_axes() {
    let data: Vec<u8> = vec![
        0x00, 0x00, 0x00, 0x10, 0x66, 0x74, 0x79, 0x70, 0x68, 0x65, 0x69, 0x63,
        0x00, 0x00, 0x00, 0x00, 0x00, 0x00, 0x00, 0x39, 0x6d, 0x65, 0x74, 0x61,
        0x00, 0x00, 0x00, 0x00, 0x00, 0x00, 0x00, 0x2d, 0x69, 0x70, 0x72, 0x70,
        0x00, 0x00, 0x00, 0x25, 0x69, 0x70, 0x63, 0x6f, 0x00, 0x00, 0x00, 0x14,
        0x69, 0x73, 0x70, 0x65, 0x00, 0x00, 0x00, 0x00, 0x00, 0x00, 0x02, 0x80,
        0x00, 0x00, 0x01, 0xe0, 0x00, 0x00, 0x00, 0x09, 0x69, 0x72, 0x6f, 0x74,
        0x02,
    ];
    let dim = blob_size(&data).unwrap();
    assert_eq!(dim, ImageSize { width: 640, height: 480 });
}

#[test]
fn unrecognized_data_is_not_supported() {
    let data: Vec<u8> = vec![
        0x01, 0x02, 0x03, 0x04, 0x05, 0x06, 0x07, 0x08, 0x09, 0x0a, 0x0b, 0x0c,
    ];
    assert_eq!(blob_size(&data), Err(ImageError::NotSupported));
    assert_eq!(image_type(&data), Err(ImageError::NotSupported));
}

#[test]
fn short_buffers_are_io_errors() {
    // Anything under the 12-byte sniffing window fails before dispatch.
    assert_eq!(blob_size(&[]), Err(ImageError::IoError));
    assert_eq!(blob_size(&[0x89]), Err(ImageError::IoError));
    let eleven: Vec<u8> = vec![0x89, 0x50, 0x4e, 0x47, 0x0d, 0x0a, 0x1a, 0x0a, 0x00, 0x00, 0x00];
    assert_eq!(blob_size(&eleven), Err(ImageError::IoError));
    assert_eq!(reader_type(&eleven), Err(ImageError::IoError));
}

#[test]
fn truncation_yields_error_not_garbage() {
    // Truncating a valid file at every offset before its dimensions are
    // complete must produce an error, never a fabricated size.
    let png: Vec<u8> = vec![
        0x89, 0x50, 0x4e, 0x47, 0x0d, 0x0a, 0x1a, 0x0a, 0x00, 0x00, 0x00, 0x0d,
        0x49, 0x48, 0x44, 0x52, 0x00, 0x00, 0x02, 0xb2, 0x00, 0x00, 0x01, 0x2a,
    ];
    for cut in 12..24 {
        assert!(blob_size(&png[..cut]).is_err());
    }
    let gif: Vec<u8> = vec![0x47, 0x49, 0x46, 0x38, 0x39, 0x61, 0x64, 0x00, 0x64, 0x00, 0x00, 0x00];
    for cut in 0..12 {
        assert!(blob_size(&gif[..cut]).is_err());
    }
    assert_eq!(blob_size(&gif).unwrap(), ImageSize { width: 100, height: 100 });
    let webp: Vec<u8> = vec![
        0x52, 0x49, 0x46, 0x46, 0x16, 0x00, 0x00, 0x00, 0x57, 0x45, 0x42, 0x50,
        0x56, 0x50, 0x38, 0x58, 0x0a, 0x00, 0x00, 0x00, 0x00, 0x00, 0x00, 0x00,
        0x0f, 0x00, 0x00, 0x1f, 0x00, 0x00,
    ];
    for cut in 12..30 {
        assert!(blob_size(&webp[..cut]).is_err());
    }
}

#[test]
fn jpeg_bad_marker_is_corrupted() {
    // After the start-of-image marker the next byte must open a marker.
    let data: Vec<u8> = vec![
        0xff, 0xd8, 0xff, 0xe0, 0x00, 0x04, 0x12, 0x34, 0x00, 0x00, 0x00, 0x00,
    ];
    assert_eq!(blob_size(&data), Err(ImageError::CorruptedImage));
}

#[test]
fn ico_truncated_directory_keeps_best_answer() {
    // Two declared entries, only the first fully present: the parser keeps
    // the best size seen instead of failing.
    let mut data: Vec<u8> = vec![0x00, 0x00, 0x01, 0x00, 0x02, 0x00];
    data.extend_from_slice(&[32, 32]);
    data.extend_from_slice(&[0u8; 14]);
    data.extend_from_slice(&[64, 64]); // second entry cut short
    let dim = blob_size(&data).unwrap();
    assert_eq!(dim, ImageSize { width: 32, height: 32 });
}

#[test]
fn dispatch_tries_tga_last() {
    // A buffer that only fits the loose TGA heuristic is still recognized.
    let data: Vec<u8> = vec![
        0x00, 0x00, 0x02, 0x00, 0x00, 0x00, 0x00, 0x00, 0x00, 0x00, 0x00, 0x00,
        0x64, 0x00, 0x43, 0x00, 0x18, 0x00,
    ];
    assert_eq!(image_type(&data).unwrap(), ImageType::Tga);
}

#[test]
fn pnm_comment_lines_are_skipped() {
    let data: Vec<u8> = b"P2\n# one comment\n# two comments\n19 23\n255\n".to_vec();
    let dim = blob_size(&data).unwrap();
    assert_eq!(dim, ImageSize { width: 19, height: 23 });
}

#[test]
fn arbitrary_bytes_never_panic() {
    // Pseudo-random buffers of many lengths, plus every crafted prefix of a
    // few real headers, must all return a value or a typed error.
    let mut state: u64 = 0x2545_f491_4f6c_dd1d;
    let mut next = move || {
        state ^= state << 13;
        state ^= state >> 7;
        state ^= state << 17;
        (state >> 24) as u8
    };
    for len in 0..200 {
        let data: Vec<u8> = (0..len).map(|_| next()).collect();
        let _ = blob_size(&data);
        let _ = image_type(&data);
    }
    // Random tails behind real magic numbers reach the per-format parsers.
    let magics: Vec<Vec<u8>> = vec![
        vec![0xff, 0xd8, 0xff],
        vec![0x89, 0x50, 0x4e, 0x47, 0x0d, 0x0a, 0x1a, 0x0a],
        vec![0x47, 0x49, 0x46, 0x38],
        vec![0x49, 0x49, 0x2a, 0x00],
        vec![0x4d, 0x4d, 0x00, 0x2b],
        vec![0x52, 0x49, 0x46, 0x46, 0x00, 0x00, 0x00, 0x00, 0x57, 0x45, 0x42, 0x50],
        vec![0x00, 0x00, 0x00, 0x10, 0x66, 0x74, 0x79, 0x70, 0x68, 0x65, 0x69, 0x63],
        vec![0xff, 0x0a],
        vec![0x00, 0x00, 0x00, 0x0c, 0x4a, 0x58, 0x4c, 0x20, 0x0d, 0x0a, 0x87, 0x0a],
        vec![0x23, 0x3f, 0x52, 0x47, 0x42, 0x45, 0x0a],
        vec![0x76, 0x2f, 0x31, 0x01],
        vec![0x46, 0x4f, 0x52, 0x4d, 0x00, 0x00, 0x00, 0x20, 0x49, 0x4c, 0x42, 0x4d],
        vec![0x00, 0x00, 0x01, 0x00],
        vec![0x50, 0x36, 0x0a],
    ];
    for magic in &magics {
        for len in 0..64 {
            let mut data = magic.clone();
            data.extend((0..len).map(|_| next()));
            let _ = blob_size(&data);
        }
    }
}

#[test]
fn truncation_of_walking_parsers() {
    // The marker, box and bit-stream walkers likewise never fabricate a
    // size from a cut-off file.
    // The start-of-frame dimensions end 9 bytes into the final segment;
    // bytes beyond them are not needed.
    let jpeg: Vec<u8> = vec![
        0xff, 0xd8, 0xff, 0xe0, 0x00, 0x10, 0x4a, 0x46, 0x49, 0x46, 0x00, 0x01,
        0x01, 0x00, 0x00, 0x01, 0x00, 0x01, 0x00, 0x00, 0xff, 0xc0, 0x00, 0x11,
        0x08, 0x01, 0x2a, 0x02, 0xb2, 0x03, 0x00, 0x00, 0x00, 0x00, 0x00, 0x00,
        0x00, 0x00, 0x00,
    ];
    for cut in 0..29 {
        assert_eq!(blob_size(&jpeg[..cut]), Err(ImageError::IoError));
    }
    assert!(blob_size(&jpeg).is_ok());

    // Cuts that end the ipco walk cleanly leave the mandatory ispe box
    // missing, a structural contradiction rather than an end-of-data, so
    // the error kind varies along the file.
    let heic: Vec<u8> = vec![
        0x00, 0x00, 0x00, 0x10, 0x66, 0x74, 0x79, 0x70, 0x68, 0x65, 0x69, 0x63,
        0x00, 0x00, 0x00, 0x00, 0x00, 0x00, 0x00, 0x30, 0x6d, 0x65, 0x74, 0x61,
        0x00, 0x00, 0x00, 0x00, 0x00, 0x00, 0x00, 0x24, 0x69, 0x70, 0x72, 0x70,
        0x00, 0x00, 0x00, 0x1c, 0x69, 0x70, 0x63, 0x6f, 0x00, 0x00, 0x00, 0x14,
        0x69, 0x73, 0x70, 0x65, 0x00, 0x00, 0x00, 0x00, 0x00, 0x00, 0x09, 0x90,
        0x00, 0x00, 0x0c, 0xc0,
    ];
    for cut in 0..heic.len() {
        assert!(blob_size(&heic[..cut]).is_err());
    }
    assert!(blob_size(&heic).is_ok());

    let jxl: Vec<u8> = vec![
        0x00, 0x00, 0x00, 0x0c, 0x4a, 0x58, 0x4c, 0x20, 0x0d, 0x0a, 0x87, 0x0a,
        0x00, 0x00, 0x00, 0x0e, 0x6a, 0x78, 0x6c, 0x63, 0xff, 0x0a, 0xf8, 0x07,
        0xfe, 0x05,
    ];
    for cut in 0..jxl.len() {
        assert!(blob_size(&jxl[..cut]).is_err());
    }
    assert!(blob_size(&jxl).is_ok());
}

#[test]
fn ico_area_order_not_entry_order() {
    // The largest area wins wherever it stands in the directory.
    let mut data: Vec<u8> = vec![0x00, 0x00, 0x01, 0x00, 0x03, 0x00];
    for (w, h) in [(16u8, 16u8), (48, 48), (32, 32)] {
        data.push(w);
        data.push(h);
        data.extend_from_slice(&[0u8; 14]);
    }
    let dim = blob_size(&data).unwrap();
    assert_eq!(dim, ImageSize { width: 48, height: 48 });
}

#[test]
fn sizes_order_by_area() {
    // 100x1 has less area than 11x10, whatever the lexicographic order says.
    let a = ImageSize {
        width: 100,
        height: 1,
    };
    let b = ImageSize {
        width: 11,
        height: 10,
    };
    assert!(a < b);
    let c = ImageSize {
        width: 10,
        height: 11,
    };
    assert!(b <= c && c <= b);
}

#[test]
fn error_messages_name_the_failure() {
    assert_eq!(ImageError::NotSupported.message(), "Could not decode image");
    assert_eq!(
        ImageError::CorruptedImage.message(),
        "Hit end of file before finding size"
    );
    assert_eq!(ImageError::IoError.message(), "Not enough data");
}

#[test]
fn heif_missing_ispe_is_corrupted() {
    // meta, iprp and ipco are all present but ipco holds no ispe box: the
    // mandatory dimension data is missing.
    let mut data: Vec<u8> = Vec::new();
    data.extend_from_slice(&16u32.to_be_bytes());
    data.extend_from_slice(b"ftypheic");
    data.extend_from_slice(&0u32.to_be_bytes());
    data.extend_from_slice(&28u32.to_be_bytes());
    data.extend_from_slice(b"meta");
    data.extend_from_slice(&0u32.to_be_bytes());
    data.extend_from_slice(&16u32.to_be_bytes());
    data.extend_from_slice(b"iprp");
    data.extend_from_slice(&8u32.to_be_bytes());
    data.extend_from_slice(b"ipco");
    assert_eq!(blob_size(&data), Err(ImageError::CorruptedImage));
}

#[test]
fn heif_undersized_box_is_corrupted() {
    // A box declaring a size below its own 8-byte header while walking to
    // the meta box.
    let mut data: Vec<u8> = Vec::new();
    data.extend_from_slice(&16u32.to_be_bytes());
    data.extend_from_slice(b"ftypheic");
    data.extend_from_slice(&0u32.to_be_bytes());
    data.extend_from_slice(&2u32.to_be_bytes());
    data.extend_from_slice(b"free");
    assert_eq!(blob_size(&data), Err(ImageError::CorruptedImage));
}

#[test]
fn tiff_structural_faults_are_corrupted() {
    // A type marker that is neither classic nor Big; the dispatcher never
    // routes such a buffer here, so call the parser directly.
    let bad_marker: Vec<u8> = vec![0x49, 0x49, 0x2c, 0x00, 8, 0, 0, 0, 0, 0, 0, 0];
    assert_eq!(
        imagesize::formats::tiff::size(&bad_marker),
        Err(ImageError::CorruptedImage)
    );

    // A directory offset of zero.
    let zero_offset: Vec<u8> = vec![0x49, 0x49, 0x2a, 0x00, 0, 0, 0, 0, 0, 0, 0, 0];
    assert_eq!(blob_size(&zero_offset), Err(ImageError::CorruptedImage));

    // A BigTIFF whose constant offset-size field is not 8.
    let bad_bigtiff: Vec<u8> = vec![0x49, 0x49, 0x2b, 0x00, 4, 0, 0, 0, 0, 0, 0, 0];
    assert_eq!(blob_size(&bad_bigtiff), Err(ImageError::CorruptedImage));

    // An IFD entry with a data-type code out of range.
    let mut bad_kind: Vec<u8> = vec![0x49, 0x49, 0x2a, 0x00];
    bad_kind.extend_from_slice(&8u32.to_le_bytes());
    bad_kind.extend_from_slice(&1u16.to_le_bytes());
    bad_kind.extend_from_slice(&0x100u16.to_le_bytes());
    bad_kind.extend_from_slice(&99u16.to_le_bytes());
    bad_kind.extend_from_slice(&1u32.to_le_bytes());
    bad_kind.extend_from_slice(&[0u8; 4]);
    assert_eq!(blob_size(&bad_kind), Err(ImageError::CorruptedImage));
}

#[test]
fn read_bits_fails_only_past_the_valid_bits() {
    let source: u128 = 0xaabb_ccdd;
    // A field ending exactly at the valid bits succeeds, even a word-wide one.
    assert_eq!(imagesize::util::read_bits(source, 32, 0, 32), Ok(0xaabb_ccdd));
    assert_eq!(imagesize::util::read_bits(source, 4, 28, 32), Ok(0xa));
    // One bit past the valid bits fails.
    assert_eq!(
        imagesize::util::read_bits(source, 1, 32, 32),
        Err(ImageError::CorruptedImage)
    );
    assert_eq!(
        imagesize::util::read_bits(source, 33, 0, 32),
        Err(ImageError::CorruptedImage)
    );
}
