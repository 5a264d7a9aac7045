//! BMP: width and height sit at fixed offsets in the info header.  The
//! stored height is signed — a negative value marks top-down row order — so
//! its magnitude is the pixel height.

use vstd::prelude::*;

use crate::util::{i32_of, le32, read_i32, read_u32, Endian};
use crate::{ImageError, ImageResult, ImageSize};

verus! {

pub open spec fn abs_int(v: int) -> int {
    if v < 0 {
        -v
    } else {
        v
    }
}

/// Width at offset 18 (unsigned) and height at offset 22 (signed, magnitude
/// taken), both little-endian 32-bit.
pub open spec fn size_spec(d: Seq<u8>) -> ImageResult<ImageSize> {
    if d.len() < 26 {
        Err(ImageError::IoError)
    } else {
        Ok(
            ImageSize {
                width: le32(d, 18) as usize,
                height: abs_int(i32_of(le32(d, 22))) as usize,
            },
        )
    }
}

pub fn size(data: &[u8]) -> (r: ImageResult<ImageSize>)
    ensures
        r == size_spec(data@),
{
    let width = read_u32(data, 18, &Endian::Little)?;
    let height = read_i32(data, 22, &Endian::Little)?;
    let height_abs: u32 = if height < 0 {
        (-(height as i64)) as u32
    } else {
        height as u32
    };
    Ok(ImageSize { width: width as usize, height: height_abs as usize })
}

/// The two-byte signature `BM`.
pub open spec fn matches_spec(h: Seq<u8>) -> bool {
    h.len() >= 2 && h[0] == 0x42 && h[1] == 0x4d
}

pub fn matches(header: &[u8]) -> (r: bool)
    ensures
        r == matches_spec(header@),
{
    header.len() >= 2 && header[0] == 0x42 && header[1] == 0x4d
}

} // verus!
