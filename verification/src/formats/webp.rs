//! WEBP: a RIFF file whose chunk discriminator at offset 12 selects one of
//! three sub-formats, each with its own fixed layout.  The extended (VP8X)
//! and lossless (VP8L) layouts store dimensions off-by-one encoded.

use vstd::prelude::*;

use crate::util::{bytes4_at, le16, le24, le32, read_u16, read_u24, read_u32, Endian};
use crate::{ImageError, ImageResult, ImageSize};

verus! {

/// Lossy VP8: 14-bit dimensions at offsets 26 and 28 of the frame header.
pub open spec fn vp8_size_spec(d: Seq<u8>) -> ImageResult<ImageSize> {
    if d.len() < 30 {
        Err(ImageError::IoError)
    } else {
        Ok(
            ImageSize {
                width: (le16(d, 26) % 0x4000) as usize,
                height: (le16(d, 28) % 0x4000) as usize,
            },
        )
    }
}

/// Lossless VP8L: one 32-bit word at offset 21 packs two 14-bit fields,
/// each stored value being the dimension minus one.
pub open spec fn vp8l_size_spec(d: Seq<u8>) -> ImageResult<ImageSize> {
    if d.len() < 25 {
        Err(ImageError::IoError)
    } else {
        Ok(
            ImageSize {
                width: (le32(d, 21) % 0x4000 + 1) as usize,
                height: ((le32(d, 21) / 0x4000) % 0x4000 + 1) as usize,
            },
        )
    }
}

/// Extended VP8X: 24-bit little-endian dimensions at offsets 24 and 27,
/// each stored value being the dimension minus one.
pub open spec fn vp8x_size_spec(d: Seq<u8>) -> ImageResult<ImageSize> {
    if d.len() < 30 {
        Err(ImageError::IoError)
    } else {
        Ok(ImageSize { width: (le24(d, 24) + 1) as usize, height: (le24(d, 27) + 1) as usize })
    }
}

/// The chunk name at offset 12 picks the layout; an unrecognized chunk in a
/// RIFF/WEBP file is a structural contradiction.
pub open spec fn size_spec(d: Seq<u8>) -> ImageResult<ImageSize> {
    if d.len() < 16 {
        Err(ImageError::IoError)
    } else if bytes4_at(d, 12, 0x56, 0x50, 0x38, 0x20) {  // VP8 (space)
        vp8_size_spec(d)
    } else if bytes4_at(d, 12, 0x56, 0x50, 0x38, 0x4c) {  // VP8L
        vp8l_size_spec(d)
    } else if bytes4_at(d, 12, 0x56, 0x50, 0x38, 0x58) {  // VP8X
        vp8x_size_spec(d)
    } else {
        Err(ImageError::CorruptedImage)
    }
}

pub fn size(data: &[u8]) -> (r: ImageResult<ImageSize>)
    ensures
        r == size_spec(data@),
{
    if data.len() < 16 {
        return Err(ImageError::IoError);
    }
    if data[12] == 0x56 && data[13] == 0x50 && data[14] == 0x38 && data[15] == 0x20 {
        let w = read_u16(data, 26, &Endian::Little)?;
        let h = read_u16(data, 28, &Endian::Little)?;
        Ok(ImageSize { width: (w % 0x4000) as usize, height: (h % 0x4000) as usize })
    } else if data[12] == 0x56 && data[13] == 0x50 && data[14] == 0x38 && data[15] == 0x4c {
        let bits = read_u32(data, 21, &Endian::Little)?;
        let w = bits % 0x4000 + 1;
        let h = (bits / 0x4000) % 0x4000 + 1;
        Ok(ImageSize { width: w as usize, height: h as usize })
    } else if data[12] == 0x56 && data[13] == 0x50 && data[14] == 0x38 && data[15] == 0x58 {
        let w = read_u24(data, 24, &Endian::Little)?;
        let h = read_u24(data, 27, &Endian::Little)?;
        Ok(ImageSize { width: (w + 1) as usize, height: (h + 1) as usize })
    } else {
        Err(ImageError::CorruptedImage)
    }
}

/// Law: the extended layout decodes off-by-one — a stored 24-bit value v
/// yields the dimension v + 1.
pub proof fn lemma_vp8x_off_by_one(d: Seq<u8>)
    requires
        d.len() >= 30,
        bytes4_at(d, 12, 0x56, 0x50, 0x38, 0x58),
    ensures
        size_spec(d) == Ok::<ImageSize, ImageError>(
            (ImageSize { width: (le24(d, 24) + 1) as usize, height: (le24(d, 27) + 1) as usize }),
        ),
{
}

/// Law: the lossless layout packs two 14-bit fields into one 32-bit word,
/// each stored value one below the dimension.
pub proof fn lemma_vp8l_off_by_one(d: Seq<u8>)
    requires
        d.len() >= 25,
        bytes4_at(d, 12, 0x56, 0x50, 0x38, 0x4c),
    ensures
        size_spec(d) == Ok::<ImageSize, ImageError>(
            (ImageSize {
                width: (le32(d, 21) % 0x4000 + 1) as usize,
                height: ((le32(d, 21) / 0x4000) % 0x4000 + 1) as usize,
            }),
        ),
{
}

/// A `RIFF` (or the rare big-endian `RIFX`) form holding `WEBP`.
pub open spec fn matches_spec(h: Seq<u8>) -> bool {
    &&& h.len() >= 12
    &&& (bytes4_at(h, 0, 0x52, 0x49, 0x46, 0x46) || bytes4_at(h, 0, 0x52, 0x49, 0x46, 0x58))
    &&& bytes4_at(h, 8, 0x57, 0x45, 0x42, 0x50)
}

pub fn matches(header: &[u8]) -> (r: bool)
    ensures
        r == matches_spec(header@),
{
    header.len() >= 12 && header[0] == 0x52 && header[1] == 0x49 && header[2] == 0x46 && (header[3]
        == 0x46 || header[3] == 0x58) && header[8] == 0x57 && header[9] == 0x45 && header[10]
        == 0x42 && header[11] == 0x50
}

} // verus!
