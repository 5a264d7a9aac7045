//! KTX2: a 12-byte identifier opens the file; the fixed header that follows
//! holds the pixel extent as little-endian 32-bit values.

use vstd::prelude::*;

use crate::util::{le32, read_u32, Endian};
use crate::{ImageError, ImageResult, ImageSize};

verus! {

/// The fixed 12-byte KTX2 identifier.
pub open spec fn matches_spec(h: Seq<u8>) -> bool {
    h.len() >= 12 && h[0] == 0xab && h[1] == 0x4b && h[2] == 0x54 && h[3] == 0x58 && h[4] == 0x20
        && h[5] == 0x32 && h[6] == 0x30 && h[7] == 0xbb && h[8] == 0x0d && h[9] == 0x0a && h[10]
        == 0x1a && h[11] == 0x0a
}

pub fn matches(header: &[u8]) -> (r: bool)
    ensures
        r == matches_spec(header@),
{
    header.len() >= 12 && header[0] == 0xab && header[1] == 0x4b && header[2] == 0x54 && header[3]
        == 0x58 && header[4] == 0x20 && header[5] == 0x32 && header[6] == 0x30 && header[7] == 0xbb
        && header[8] == 0x0d && header[9] == 0x0a && header[10] == 0x1a && header[11] == 0x0a
}

/// The identifier is validated again, then the whole 40-byte fixed header
/// must be present; width sits at offset 16 and height at offset 20, both
/// little-endian 32-bit.
pub open spec fn size_spec(d: Seq<u8>) -> ImageResult<ImageSize> {
    if d.len() < 12 {
        Err(ImageError::IoError)
    } else if !matches_spec(d) {
        Err(ImageError::IoError)
    } else if d.len() < 52 {
        Err(ImageError::IoError)
    } else {
        Ok(ImageSize { width: le32(d, 16) as usize, height: le32(d, 20) as usize })
    }
}

pub fn size(data: &[u8]) -> (r: ImageResult<ImageSize>)
    ensures
        r == size_spec(data@),
{
    if data.len() < 12 {
        return Err(ImageError::IoError);
    }
    if !matches(data) {
        return Err(ImageError::IoError);
    }
    if data.len() < 52 {
        return Err(ImageError::IoError);
    }
    let width = read_u32(data, 16, &Endian::Little)?;
    let height = read_u32(data, 20, &Endian::Little)?;
    Ok(ImageSize { width: width as usize, height: height as usize })
}

} // verus!
