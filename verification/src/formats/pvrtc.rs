//! PVRTC, standalone variant for the legacy PVR layout: height and width
//! follow the header-size field.  The dispatcher uses the container module
//! instead, which also understands the v3 layout.

use vstd::prelude::*;

use crate::util::{le32, read_u32, Endian};
use crate::{ImageError, ImageResult, ImageSize};

verus! {

/// Height at offset 4 and width at offset 8, both little-endian 32-bit.
pub open spec fn size_spec(d: Seq<u8>) -> ImageResult<ImageSize> {
    if d.len() < 12 {
        Err(ImageError::IoError)
    } else {
        Ok(ImageSize { width: le32(d, 8) as usize, height: le32(d, 4) as usize })
    }
}

pub fn size(data: &[u8]) -> (r: ImageResult<ImageSize>)
    ensures
        r == size_spec(data@),
{
    let height = read_u32(data, 4, &Endian::Little)?;
    let width = read_u32(data, 8, &Endian::Little)?;
    Ok(ImageSize { width: width as usize, height: height as usize })
}

/// A legacy header-size of 52, the `PVR!` marker at offset 44, or the v3
/// signature `PVR\x03`.
pub open spec fn matches_spec(h: Seq<u8>) -> bool {
    ||| (h.len() >= 4 && le32(h, 0) == 52)
    ||| (h.len() >= 48 && h[44] == 0x50 && h[45] == 0x56 && h[46] == 0x52 && h[47] == 0x21)
    ||| (h.len() >= 4 && h[0] == 0x50 && h[1] == 0x56 && h[2] == 0x52 && h[3] == 0x03)
}

pub fn matches(header: &[u8]) -> (r: bool)
    ensures
        r == matches_spec(header@),
{
    if header.len() >= 4 {
        let header_size = match crate::util::read_u32(header, 0, &Endian::Little) {
            Ok(v) => v,
            Err(_) => 0,
        };
        if header_size == 52 {
            return true;
        }
    }
    if header.len() >= 48 && header[44] == 0x50 && header[45] == 0x56 && header[46] == 0x52
        && header[47] == 0x21 {
        return true;
    }
    header.len() >= 4 && header[0] == 0x50 && header[1] == 0x56 && header[2] == 0x52 && header[3]
        == 0x03
}

} // verus!
