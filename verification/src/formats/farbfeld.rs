//! farbfeld: width and height follow the 8-byte signature as big-endian
//! 32-bit values.

use vstd::prelude::*;

use crate::util::{be32, read_u32, Endian};
use crate::{ImageError, ImageResult, ImageSize};

verus! {

/// Width at offset 8 and height at offset 12, both big-endian 32-bit.
pub open spec fn size_spec(d: Seq<u8>) -> ImageResult<ImageSize> {
    if d.len() < 16 {
        Err(ImageError::IoError)
    } else {
        Ok(ImageSize { width: be32(d, 8) as usize, height: be32(d, 12) as usize })
    }
}

pub fn size(data: &[u8]) -> (r: ImageResult<ImageSize>)
    ensures
        r == size_spec(data@),
{
    let width = read_u32(data, 8, &Endian::Big)?;
    let height = read_u32(data, 12, &Endian::Big)?;
    Ok(ImageSize { width: width as usize, height: height as usize })
}

/// The eight-byte signature `farbfeld`.
pub open spec fn matches_spec(h: Seq<u8>) -> bool {
    h.len() >= 8 && h[0] == 0x66 && h[1] == 0x61 && h[2] == 0x72 && h[3] == 0x62 && h[4] == 0x66
        && h[5] == 0x65 && h[6] == 0x6c && h[7] == 0x64
}

pub fn matches(header: &[u8]) -> (r: bool)
    ensures
        r == matches_spec(header@),
{
    header.len() >= 8 && header[0] == 0x66 && header[1] == 0x61 && header[2] == 0x72 && header[3]
        == 0x62 && header[4] == 0x66 && header[5] == 0x65 && header[6] == 0x6c && header[7] == 0x64
}

} // verus!
