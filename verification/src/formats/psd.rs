//! PSD: height and width follow the signature, version, reserved and
//! channel fields, as big-endian 32-bit values.

use vstd::prelude::*;

use crate::util::{be32, read_u32, Endian};
use crate::{ImageError, ImageResult, ImageSize};

verus! {

/// Height at offset 14 and width at offset 18, both big-endian 32-bit.
pub open spec fn size_spec(d: Seq<u8>) -> ImageResult<ImageSize> {
    if d.len() < 22 {
        Err(ImageError::IoError)
    } else {
        Ok(ImageSize { width: be32(d, 18) as usize, height: be32(d, 14) as usize })
    }
}

pub fn size(data: &[u8]) -> (r: ImageResult<ImageSize>)
    ensures
        r == size_spec(data@),
{
    let height = read_u32(data, 14, &Endian::Big)?;
    let width = read_u32(data, 18, &Endian::Big)?;
    Ok(ImageSize { width: width as usize, height: height as usize })
}

/// The four-byte signature `8BPS`.
pub open spec fn matches_spec(h: Seq<u8>) -> bool {
    h.len() >= 4 && h[0] == 0x38 && h[1] == 0x42 && h[2] == 0x50 && h[3] == 0x53
}

pub fn matches(header: &[u8]) -> (r: bool)
    ensures
        r == matches_spec(header@),
{
    header.len() >= 4 && header[0] == 0x38 && header[1] == 0x42 && header[2] == 0x50 && header[3]
        == 0x53
}

} // verus!
