//! QOI: width and height follow the signature as big-endian 32-bit values.

use vstd::prelude::*;

use crate::util::{be32, read_u32, Endian};
use crate::{ImageError, ImageResult, ImageSize};

verus! {

/// Width at offset 4 and height at offset 8, both big-endian 32-bit.
pub open spec fn size_spec(d: Seq<u8>) -> ImageResult<ImageSize> {
    if d.len() < 12 {
        Err(ImageError::IoError)
    } else {
        Ok(ImageSize { width: be32(d, 4) as usize, height: be32(d, 8) as usize })
    }
}

pub fn size(data: &[u8]) -> (r: ImageResult<ImageSize>)
    ensures
        r == size_spec(data@),
{
    let width = read_u32(data, 4, &Endian::Big)?;
    let height = read_u32(data, 8, &Endian::Big)?;
    Ok(ImageSize { width: width as usize, height: height as usize })
}

/// The four-byte signature `qoif`.
pub open spec fn matches_spec(h: Seq<u8>) -> bool {
    h.len() >= 4 && h[0] == 0x71 && h[1] == 0x6f && h[2] == 0x69 && h[3] == 0x66
}

pub fn matches(header: &[u8]) -> (r: bool)
    ensures
        r == matches_spec(header@),
{
    header.len() >= 4 && header[0] == 0x71 && header[1] == 0x6f && header[2] == 0x69 && header[3]
        == 0x66
}

} // verus!
