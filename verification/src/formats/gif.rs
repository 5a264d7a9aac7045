//! GIF: the logical screen descriptor follows the 6-byte signature and holds
//! width and height as little-endian 16-bit values.

use vstd::prelude::*;

use crate::util::{le16, read_u16, Endian};
use crate::{ImageError, ImageResult, ImageSize};

verus! {

/// Width at offset 6 and height at offset 8, both little-endian 16-bit.
pub open spec fn size_spec(d: Seq<u8>) -> ImageResult<ImageSize> {
    if d.len() < 10 {
        Err(ImageError::IoError)
    } else {
        Ok(ImageSize { width: le16(d, 6) as usize, height: le16(d, 8) as usize })
    }
}

pub fn size(data: &[u8]) -> (r: ImageResult<ImageSize>)
    ensures
        r == size_spec(data@),
{
    let width = read_u16(data, 6, &Endian::Little)?;
    let height = read_u16(data, 8, &Endian::Little)?;
    Ok(ImageSize { width: width as usize, height: height as usize })
}

/// The signature `GIF8` opens both the 87a and the 89a variant.
pub open spec fn matches_spec(h: Seq<u8>) -> bool {
    h.len() >= 4 && h[0] == 0x47 && h[1] == 0x49 && h[2] == 0x46 && h[3] == 0x38
}

pub fn matches(header: &[u8]) -> (r: bool)
    ensures
        r == matches_spec(header@),
{
    header.len() >= 4 && header[0] == 0x47 && header[1] == 0x49 && header[2] == 0x46 && header[3]
        == 0x38
}

} // verus!
