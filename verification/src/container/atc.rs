//! Adaptive Texture Compression, carried either in a DDS container or in a
//! PKM container with ATC-specific data types.

use vstd::prelude::*;

use crate::util::{be16, bytes4_at, le32, read_u16, read_u32, Endian};
use crate::{ImageError, ImageResult, ImageSize};

verus! {

/// Compression formats for ATC containers.
#[derive(Clone, Copy, Debug, PartialEq, Eq, PartialOrd, Ord, Hash)]
pub enum AtcCompression {
    /// ATC RGB (no alpha)
    Rgb,
    /// ATC RGBA with explicit alpha
    RgbaExplicit,
    /// ATC RGBA with interpolated alpha
    RgbaInterpolated,
    /// Other/Unknown ATC format
    Unknown,
}

/// A PKM header (magic plus version) as the ATC module reads it.
pub open spec fn is_pkm_header(d: Seq<u8>) -> bool {
    &&& d[0] == 0x50 && d[1] == 0x4b && d[2] == 0x4d && d[3] == 0x20
    &&& ((d[4] == 0x31 && d[5] == 0x30) || (d[4] == 0x32 && d[5] == 0x30))
}

/// The ATC-specific PKM data types.
pub open spec fn is_atc_type(t: int) -> bool {
    t == 0x8c92 || t == 0x8c93 || t == 0x87ee
}

/// Dimensions of an ATC texture: a DDS container yields the usual DDS
/// extent; a PKM container with an ATC data type yields the PKM extent;
/// anything else falls back to a pair of little-endian 32-bit values after
/// a 4-byte prefix.
pub open spec fn size_spec(d: Seq<u8>) -> ImageResult<ImageSize> {
    if d.len() < 4 {
        Err(ImageError::IoError)
    } else if bytes4_at(d, 0, 0x44, 0x44, 0x53, 0x20) {
        if d.len() < 20 {
            Err(ImageError::IoError)
        } else {
            Ok(ImageSize { width: le32(d, 16) as usize, height: le32(d, 12) as usize })
        }
    } else if d.len() < 8 {
        Err(ImageError::IoError)
    } else if is_pkm_header(d) && is_atc_type(be16(d, 6)) {
        if d.len() < 16 {
            Err(ImageError::IoError)
        } else {
            Ok(ImageSize { width: be16(d, 12) as usize, height: be16(d, 14) as usize })
        }
    } else if d.len() < 12 {
        Err(ImageError::IoError)
    } else {
        Ok(ImageSize { width: le32(d, 8) as usize, height: le32(d, 4) as usize })
    }
}

pub fn size(data: &[u8]) -> (r: ImageResult<ImageSize>)
    ensures
        r == size_spec(data@),
{
    if data.len() < 4 {
        return Err(ImageError::IoError);
    }
    if data[0] == 0x44 && data[1] == 0x44 && data[2] == 0x53 && data[3] == 0x20 {
        let height = read_u32(data, 12, &Endian::Little)?;
        let width = read_u32(data, 16, &Endian::Little)?;
        return Ok(ImageSize { width: width as usize, height: height as usize });
    }
    if data.len() < 8 {
        return Err(ImageError::IoError);
    }
    let is_pkm = data[0] == 0x50 && data[1] == 0x4b && data[2] == 0x4d && data[3] == 0x20 && ((
    data[4] == 0x31 && data[5] == 0x30) || (data[4] == 0x32 && data[5] == 0x30));
    if is_pkm {
        let data_type: u16 = 0x100 * (data[6] as u16) + data[7] as u16;
        if data_type == 0x8c92 || data_type == 0x8c93 || data_type == 0x87ee {
            let _extended_width = read_u16(data, 8, &Endian::Big)?;
            let _extended_height = read_u16(data, 10, &Endian::Big)?;
            let width = read_u16(data, 12, &Endian::Big)?;
            let height = read_u16(data, 14, &Endian::Big)?;
            return Ok(ImageSize { width: width as usize, height: height as usize });
        }
    }
    let height = read_u32(data, 4, &Endian::Little)?;
    let width = read_u32(data, 8, &Endian::Little)?;
    Ok(ImageSize { width: width as usize, height: height as usize })
}

/// Only a PKM container with an ATC data type is sniffed as ATC; DDS files
/// carrying ATC stay with the DDS detector.
pub open spec fn matches_spec(h: Seq<u8>) -> bool {
    h.len() >= 8 && is_pkm_header(h) && is_atc_type(be16(h, 6))
}

pub fn matches(header: &[u8]) -> (r: bool)
    ensures
        r == matches_spec(header@),
{
    if !(header.len() >= 8 && header[0] == 0x50 && header[1] == 0x4b && header[2] == 0x4d
        && header[3] == 0x20 && ((header[4] == 0x31 && header[5] == 0x30) || (header[4] == 0x32
        && header[5] == 0x30))) {
        return false;
    }
    let data_type: u16 = 0x100 * (header[6] as u16) + header[7] as u16;
    data_type == 0x8c92 || data_type == 0x8c93 || data_type == 0x87ee
}

/// The inner codec from the PKM data type; a DDS container or an unknown
/// type yields `Unknown`.
pub open spec fn detect_compression_spec(d: Seq<u8>) -> ImageResult<AtcCompression> {
    if d.len() < 8 {
        Err(ImageError::IoError)
    } else if is_pkm_header(d) {
        if be16(d, 6) == 0x8c92 {
            Ok(AtcCompression::Rgb)
        } else if be16(d, 6) == 0x8c93 {
            Ok(AtcCompression::RgbaExplicit)
        } else if be16(d, 6) == 0x87ee {
            Ok(AtcCompression::RgbaInterpolated)
        } else {
            Ok(AtcCompression::Unknown)
        }
    } else {
        Ok(AtcCompression::Unknown)
    }
}

pub fn detect_compression(data: &[u8]) -> (r: ImageResult<AtcCompression>)
    ensures
        r == detect_compression_spec(data@),
{
    if data.len() < 8 {
        return Err(ImageError::IoError);
    }
    let is_pkm = data[0] == 0x50 && data[1] == 0x4b && data[2] == 0x4d && data[3] == 0x20 && ((
    data[4] == 0x31 && data[5] == 0x30) || (data[4] == 0x32 && data[5] == 0x30));
    if is_pkm {
        let data_type: u16 = 0x100 * (data[6] as u16) + data[7] as u16;
        if data_type == 0x8c92 {
            Ok(AtcCompression::Rgb)
        } else if data_type == 0x8c93 {
            Ok(AtcCompression::RgbaExplicit)
        } else if data_type == 0x87ee {
            Ok(AtcCompression::RgbaInterpolated)
        } else {
            Ok(AtcCompression::Unknown)
        }
    } else {
        Ok(AtcCompression::Unknown)
    }
}

} // verus!
