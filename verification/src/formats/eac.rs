//! EAC, standalone variant over the PKM container: like ETC2 but the match
//! also requires an EAC data type.  The dispatcher uses the container module
//! instead.

use vstd::prelude::*;

use crate::util::{be16, read_u16, Endian};
use crate::{ImageError, ImageResult, ImageSize};

verus! {

/// Original width at offset 12 and height at offset 14, both big-endian
/// 16-bit.
pub open spec fn size_spec(d: Seq<u8>) -> ImageResult<ImageSize> {
    if d.len() < 16 {
        Err(ImageError::IoError)
    } else {
        Ok(ImageSize { width: be16(d, 12) as usize, height: be16(d, 14) as usize })
    }
}

pub fn size(data: &[u8]) -> (r: ImageResult<ImageSize>)
    ensures
        r == size_spec(data@),
{
    let _extended_width = read_u16(data, 8, &Endian::Big)?;
    let _extended_height = read_u16(data, 10, &Endian::Big)?;
    let width = read_u16(data, 12, &Endian::Big)?;
    let height = read_u16(data, 14, &Endian::Big)?;
    Ok(ImageSize { width: width as usize, height: height as usize })
}

/// A PKM header whose big-endian data type at offset 6 lies in the EAC
/// range 0x1608 ..= 0x160B.
pub open spec fn matches_spec(h: Seq<u8>) -> bool {
    &&& h.len() >= 8
    &&& h[0] == 0x50 && h[1] == 0x4b && h[2] == 0x4d && h[3] == 0x20
    &&& ((h[4] == 0x31 && h[5] == 0x30) || (h[4] == 0x32 && h[5] == 0x30))
    &&& 0x1608 <= be16(h, 6) <= 0x160b
}

pub fn matches(header: &[u8]) -> (r: bool)
    ensures
        r == matches_spec(header@),
{
    if !(header.len() >= 8 && header[0] == 0x50 && header[1] == 0x4b && header[2] == 0x4d
        && header[3] == 0x20 && ((header[4] == 0x31 && header[5] == 0x30) || (header[4] == 0x32
        && header[5] == 0x30))) {
        return false;
    }
    let data_type: u16 = 0x100 * (header[6] as u16) + header[7] as u16;
    0x1608 <= data_type && data_type <= 0x160b
}

} // verus!
