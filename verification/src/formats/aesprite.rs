//! Aseprite: the magic word 0xA5E0 sits at offset 4; width and height follow
//! the frame count as little-endian 16-bit values.

use vstd::prelude::*;

use crate::util::{le16, read_u16, Endian};
use crate::{ImageError, ImageResult, ImageSize};

verus! {

/// Width at offset 8 and height at offset 10, both little-endian 16-bit.
pub open spec fn size_spec(d: Seq<u8>) -> ImageResult<ImageSize> {
    if d.len() < 12 {
        Err(ImageError::IoError)
    } else {
        Ok(ImageSize { width: le16(d, 8) as usize, height: le16(d, 10) as usize })
    }
}

pub fn size(data: &[u8]) -> (r: ImageResult<ImageSize>)
    ensures
        r == size_spec(data@),
{
    let width = read_u16(data, 8, &Endian::Little)?;
    let height = read_u16(data, 10, &Endian::Little)?;
    Ok(ImageSize { width: width as usize, height: height as usize })
}

/// The little-endian magic word 0xA5E0 at offset 4.
pub open spec fn matches_spec(h: Seq<u8>) -> bool {
    h.len() >= 6 && h[4] == 0xe0 && h[5] == 0xa5
}

pub fn matches(header: &[u8]) -> (r: bool)
    ensures
        r == matches_spec(header@),
{
    header.len() >= 6 && header[4] == 0xe0 && header[5] == 0xa5
}

} // verus!
