//! ILBM / PBM (IFF interleaved bitmap): walk chunks past the 12-byte FORM
//! header until `BMHD`, which holds the extent; meeting `BODY` first is a
//! structural contradiction, since `BMHD` must precede it.

use vstd::prelude::*;

use crate::util::{be16, be32, bytes4_at, read_u16, read_u32, Endian};
use crate::{ImageError, ImageResult, ImageSize};

verus! {

/// One chunk step: `BMHD` yields width and height (big-endian 16-bit just
/// past the chunk header); `BODY` fails; anything else is skipped by its
/// declared length, padded to even.
pub open spec fn chunk_scan_spec(d: Seq<u8>, pos: int) -> ImageResult<ImageSize>
    decreases d.len() - pos,
{
    if pos + 8 > d.len() {
        Err(ImageError::IoError)
    } else {
        let chunk_length = be32(d, pos + 4);
        if bytes4_at(d, pos, 0x42, 0x4d, 0x48, 0x44) {  // BMHD
            if pos + 12 > d.len() {
                Err(ImageError::IoError)
            } else {
                Ok(ImageSize { width: be16(d, pos + 8) as usize, height: be16(d, pos + 10) as usize })
            }
        } else if bytes4_at(d, pos, 0x42, 0x4f, 0x44, 0x59) {  // BODY
            Err(ImageError::CorruptedImage)
        } else if pos + 8 + chunk_length + (chunk_length % 2) > d.len() {
            Err(ImageError::IoError)
        } else {
            chunk_scan_spec(d, pos + 8 + chunk_length + (chunk_length % 2))
        }
    }
}

/// Chunks start just past the 12-byte FORM header.
pub open spec fn size_spec(d: Seq<u8>) -> ImageResult<ImageSize> {
    chunk_scan_spec(d, 12)
}

pub fn size(data: &[u8]) -> (r: ImageResult<ImageSize>)
    ensures
        r == size_spec(data@),
{
    let ghost target = chunk_scan_spec(data@, 12);
    let mut pos: usize = 12;
    let mut result: ImageResult<ImageSize> = Err(ImageError::IoError);
    loop
        invariant_except_break
            chunk_scan_spec(data@, pos as int) == target,
        ensures
            result == target,
        decreases data@.len() - pos,
    {
        if data.len() < 8 || pos > data.len() - 8 {
            result = Err(ImageError::IoError);
            break;
        }
        let chunk_length = match read_u32(data, pos + 4, &Endian::Big) {
            Ok(v) => v,
            Err(e) => {
                result = Err(e);
                break;
            },
        };
        if data[pos] == 0x42 && data[pos + 1] == 0x4d && data[pos + 2] == 0x48 && data[pos + 3]
            == 0x44 {
            if data.len() - pos < 12 {
                result = Err(ImageError::IoError);
                break;
            }
            let width = match read_u16(data, pos + 8, &Endian::Big) {
                Ok(v) => v,
                Err(e) => {
                    result = Err(e);
                    break;
                },
            };
            let height = match read_u16(data, pos + 10, &Endian::Big) {
                Ok(v) => v,
                Err(e) => {
                    result = Err(e);
                    break;
                },
            };
            result = Ok(ImageSize { width: width as usize, height: height as usize });
            break;
        }
        if data[pos] == 0x42 && data[pos + 1] == 0x4f && data[pos + 2] == 0x44 && data[pos + 3]
            == 0x59 {
            result = Err(ImageError::CorruptedImage);
            break;
        }
        let skip: u64 = (chunk_length as u64) + ((chunk_length % 2) as u64);
        if ((data.len() - pos) as u64) < 8 + skip {
            result = Err(ImageError::IoError);
            break;
        }
        pos = pos + 8 + skip as usize;
    }
    result
}

/// A `FORM` container whose form type is `ILBM` or `PBM `.
pub open spec fn matches_spec(h: Seq<u8>) -> bool {
    &&& h.len() >= 12
    &&& bytes4_at(h, 0, 0x46, 0x4f, 0x52, 0x4d)
    &&& (bytes4_at(h, 8, 0x49, 0x4c, 0x42, 0x4d) || bytes4_at(h, 8, 0x50, 0x42, 0x4d, 0x20))
}

pub fn matches(header: &[u8]) -> (r: bool)
    ensures
        r == matches_spec(header@),
{
    header.len() >= 12 && header[0] == 0x46 && header[1] == 0x4f && header[2] == 0x52 && header[3]
        == 0x4d && ((header[8] == 0x49 && header[9] == 0x4c && header[10] == 0x42 && header[11]
        == 0x4d) || (header[8] == 0x50 && header[9] == 0x42 && header[10] == 0x4d && header[11]
        == 0x20))
}

} // verus!
