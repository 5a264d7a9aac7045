//! DDS, standalone variant: validates the magic, then requires the whole
//! 124-byte header before reading the extent.  The dispatcher uses the
//! container module instead; this variant is kept for callers that want the
//! stricter whole-header check.

use vstd::prelude::*;

use crate::util::{le32, read_u32, Endian};
use crate::{ImageError, ImageResult, ImageSize};

verus! {

/// Height at offset 12 and width at offset 16, both little-endian 32-bit,
/// valid only when the magic `DDS ` opens the file and all 128 header bytes
/// are present.
pub open spec fn size_spec(d: Seq<u8>) -> ImageResult<ImageSize> {
    if d.len() < 4 {
        Err(ImageError::IoError)
    } else if !(d[0] == 0x44 && d[1] == 0x44 && d[2] == 0x53 && d[3] == 0x20) {
        Err(ImageError::IoError)
    } else if d.len() < 128 {
        Err(ImageError::IoError)
    } else {
        Ok(ImageSize { width: le32(d, 16) as usize, height: le32(d, 12) as usize })
    }
}

pub fn size(data: &[u8]) -> (r: ImageResult<ImageSize>)
    ensures
        r == size_spec(data@),
{
    if data.len() < 4 {
        return Err(ImageError::IoError);
    }
    if !(data[0] == 0x44 && data[1] == 0x44 && data[2] == 0x53 && data[3] == 0x20) {
        return Err(ImageError::IoError);
    }
    if data.len() < 128 {
        return Err(ImageError::IoError);
    }
    let height = read_u32(data, 12, &Endian::Little)?;
    let width = read_u32(data, 16, &Endian::Little)?;
    Ok(ImageSize { width: width as usize, height: height as usize })
}

/// The three leading bytes `DDS`.
pub open spec fn matches_spec(h: Seq<u8>) -> bool {
    h.len() >= 3 && h[0] == 0x44 && h[1] == 0x44 && h[2] == 0x53
}

pub fn matches(header: &[u8]) -> (r: bool)
    ensures
        r == matches_spec(header@),
{
    header.len() >= 3 && header[0] == 0x44 && header[1] == 0x44 && header[2] == 0x53
}

} // verus!
