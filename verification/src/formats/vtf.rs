//! VTF: width and height follow the signature, version and header-size
//! fields as little-endian 16-bit values.

use vstd::prelude::*;

use crate::util::{le16, read_u16, Endian};
use crate::{ImageError, ImageResult, ImageSize};

verus! {

/// Width at offset 16 and height at offset 18, both little-endian 16-bit.
pub open spec fn size_spec(d: Seq<u8>) -> ImageResult<ImageSize> {
    if d.len() < 20 {
        Err(ImageError::IoError)
    } else {
        Ok(ImageSize { width: le16(d, 16) as usize, height: le16(d, 18) as usize })
    }
}

pub fn size(data: &[u8]) -> (r: ImageResult<ImageSize>)
    ensures
        r == size_spec(data@),
{
    let width = read_u16(data, 16, &Endian::Little)?;
    let height = read_u16(data, 18, &Endian::Little)?;
    Ok(ImageSize { width: width as usize, height: height as usize })
}

/// The four-byte signature `VTF\0`.
pub open spec fn matches_spec(h: Seq<u8>) -> bool {
    h.len() >= 4 && h[0] == 0x56 && h[1] == 0x54 && h[2] == 0x46 && h[3] == 0x00
}

pub fn matches(header: &[u8]) -> (r: bool)
    ensures
        r == matches_spec(header@),
{
    header.len() >= 4 && header[0] == 0x56 && header[1] == 0x54 && header[2] == 0x46 && header[3]
        == 0x00
}

} // verus!
