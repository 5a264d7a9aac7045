//! ASTC: the 16-byte header holds the image extent after the magic number
//! and block dimensions, as little-endian 24-bit values.

use vstd::prelude::*;

use crate::util::{le24, read_u24, Endian};
use crate::{ImageError, ImageResult, ImageSize};

verus! {

/// Width at offset 7 and height at offset 10, both little-endian 24-bit.
pub open spec fn size_spec(d: Seq<u8>) -> ImageResult<ImageSize> {
    if d.len() < 13 {
        Err(ImageError::IoError)
    } else {
        Ok(ImageSize { width: le24(d, 7) as usize, height: le24(d, 10) as usize })
    }
}

pub fn size(data: &[u8]) -> (r: ImageResult<ImageSize>)
    ensures
        r == size_spec(data@),
{
    let width = read_u24(data, 7, &Endian::Little)?;
    let height = read_u24(data, 10, &Endian::Little)?;
    Ok(ImageSize { width: width as usize, height: height as usize })
}

/// The four-byte magic number 0x13 0xAB 0xA0 0x5C.
pub open spec fn matches_spec(h: Seq<u8>) -> bool {
    h.len() >= 4 && h[0] == 0x13 && h[1] == 0xab && h[2] == 0xa0 && h[3] == 0x5c
}

pub fn matches(header: &[u8]) -> (r: bool)
    ensures
        r == matches_spec(header@),
{
    header.len() >= 4 && header[0] == 0x13 && header[1] == 0xab && header[2] == 0xa0 && header[3]
        == 0x5c
}

} // verus!
