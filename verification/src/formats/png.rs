//! PNG (and APNG): the IHDR chunk directly follows the 8-byte signature and
//! holds width and height as big-endian 32-bit values.

use vstd::prelude::*;

use crate::util::{be32, read_u32, Endian};
use crate::{ImageError, ImageResult, ImageSize};

verus! {

/// Width at offset 16 and height at offset 20, both big-endian 32-bit.
pub open spec fn size_spec(d: Seq<u8>) -> ImageResult<ImageSize> {
    if d.len() < 24 {
        Err(ImageError::IoError)
    } else {
        Ok(ImageSize { width: be32(d, 16) as usize, height: be32(d, 20) as usize })
    }
}

pub fn size(data: &[u8]) -> (r: ImageResult<ImageSize>)
    ensures
        r == size_spec(data@),
{
    let width = read_u32(data, 16, &Endian::Big)?;
    let height = read_u32(data, 20, &Endian::Big)?;
    Ok(ImageSize { width: width as usize, height: height as usize })
}

/// The fixed 8-byte PNG signature.
pub open spec fn matches_spec(h: Seq<u8>) -> bool {
    h.len() >= 8 && h[0] == 0x89 && h[1] == 0x50 && h[2] == 0x4e && h[3] == 0x47 && h[4] == 0x0d
        && h[5] == 0x0a && h[6] == 0x1a && h[7] == 0x0a
}

pub fn matches(header: &[u8]) -> (r: bool)
    ensures
        r == matches_spec(header@),
{
    header.len() >= 8 && header[0] == 0x89 && header[1] == 0x50 && header[2] == 0x4e && header[3]
        == 0x47 && header[4] == 0x0d && header[5] == 0x0a && header[6] == 0x1a && header[7] == 0x0a
}

} // verus!
