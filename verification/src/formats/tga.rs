//! TGA: there is no signature; the sniff is a heuristic over the colour-map
//! and image-type bytes, which is why the dispatcher tries TGA last.

use vstd::prelude::*;

use crate::util::{le16, read_u16, Endian};
use crate::{ImageError, ImageResult, ImageSize};

verus! {

/// Width at offset 12 and height at offset 14 of the 18-byte header, both
/// little-endian 16-bit; the whole header must be present.
pub open spec fn size_spec(d: Seq<u8>) -> ImageResult<ImageSize> {
    if d.len() < 18 {
        Err(ImageError::IoError)
    } else {
        Ok(ImageSize { width: le16(d, 12) as usize, height: le16(d, 14) as usize })
    }
}

pub fn size(data: &[u8]) -> (r: ImageResult<ImageSize>)
    ensures
        r == size_spec(data@),
{
    if data.len() < 18 {
        return Err(ImageError::IoError);
    }
    let width = read_u16(data, 12, &Endian::Little)?;
    let height = read_u16(data, 14, &Endian::Little)?;
    Ok(ImageSize { width: width as usize, height: height as usize })
}

/// Heuristic: the image type must be one of the uncompressed or RLE types
/// and the colour-map byte must be 0 or 1.
pub open spec fn matches_spec(h: Seq<u8>) -> bool {
    &&& h.len() >= 3
    &&& (h[2] == 1 || h[2] == 2 || h[2] == 3 || h[2] == 9 || h[2] == 10 || h[2] == 11)
    &&& (h[1] == 0 || h[1] == 1)
}

pub fn matches(header: &[u8]) -> (r: bool)
    ensures
        r == matches_spec(header@),
{
    if header.len() < 3 {
        return false;
    }
    let image_type = header[2];
    if image_type != 1 && image_type != 2 && image_type != 3 && image_type != 9 && image_type != 10
        && image_type != 11 {
        return false;
    }
    let colormap_type = header[1];
    if colormap_type != 0 && colormap_type != 1 {
        return false;
    }
    true
}

} // verus!
