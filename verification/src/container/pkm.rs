//! PKM container for the ETC/EAC texture family.
//!
//! Header layout: magic `PKM ` (4 bytes), version `10` or `20` (2 bytes),
//! big-endian data type (2 bytes), extended width and height (2 bytes each),
//! original width and height (2 bytes each).

use vstd::prelude::*;

use crate::util::{be16, read_u16, Endian};
use crate::{ImageError, ImageResult, ImageSize};

verus! {

/// Compression formats for PKM containers (ETC/EAC family).
#[derive(Clone, Copy, Debug, PartialEq, Eq, PartialOrd, Ord, Hash)]
pub enum PkmCompression {
    /// ETC1 RGB (original format)
    Etc1,
    /// ETC2 RGB (enhanced)
    Etc2,
    /// ETC2 with 1-bit punch-through alpha
    Etc2A1,
    /// ETC2 with 8-bit alpha channel
    Etc2A8,
    /// EAC single channel (R11)
    EacR,
    /// EAC two channel (RG11)
    EacRg,
    /// EAC single channel signed (R11_SIGNED)
    EacRSigned,
    /// EAC two channel signed (RG11_SIGNED)
    EacRgSigned,
    /// Other/Unknown PKM format
    Unknown,
}

/// Original width at offset 12 and height at offset 14, both big-endian
/// 16-bit.
pub open spec fn size_spec(d: Seq<u8>) -> ImageResult<ImageSize> {
    if d.len() < 16 {
        Err(ImageError::IoError)
    } else {
        Ok(ImageSize { width: be16(d, 12) as usize, height: be16(d, 14) as usize })
    }
}

pub fn size(data: &[u8]) -> (r: ImageResult<ImageSize>)
    ensures
        r == size_spec(data@),
{
    let _extended_width = read_u16(data, 8, &Endian::Big)?;
    let _extended_height = read_u16(data, 10, &Endian::Big)?;
    let width = read_u16(data, 12, &Endian::Big)?;
    let height = read_u16(data, 14, &Endian::Big)?;
    Ok(ImageSize { width: width as usize, height: height as usize })
}

/// The magic `PKM ` followed by version `10` or `20`.
pub open spec fn matches_spec(h: Seq<u8>) -> bool {
    &&& h.len() >= 6
    &&& h[0] == 0x50 && h[1] == 0x4b && h[2] == 0x4d && h[3] == 0x20
    &&& ((h[4] == 0x31 && h[5] == 0x30) || (h[4] == 0x32 && h[5] == 0x30))
}

pub fn matches(header: &[u8]) -> (r: bool)
    ensures
        r == matches_spec(header@),
{
    header.len() >= 6 && header[0] == 0x50 && header[1] == 0x4b && header[2] == 0x4d && header[3]
        == 0x20 && ((header[4] == 0x31 && header[5] == 0x30) || (header[4] == 0x32 && header[5]
        == 0x30))
}

/// A PKM header whose data type lies in the EAC range; checked before the
/// generic PKM match since the magic is the same.
pub open spec fn matches_eac_spec(h: Seq<u8>) -> bool {
    &&& h.len() >= 8
    &&& matches_spec(h)
    &&& 0x1608 <= be16(h, 6) <= 0x160b
}

pub fn matches_eac(header: &[u8]) -> (r: bool)
    ensures
        r == matches_eac_spec(header@),
{
    if !(header.len() >= 8 && matches(header)) {
        return false;
    }
    let data_type: u16 = 0x100 * (header[6] as u16) + header[7] as u16;
    0x1608 <= data_type && data_type <= 0x160b
}

/// The inner codec named by a PKM data-type value.
pub open spec fn compression_of(t: int) -> PkmCompression {
    if t == 0x0000 {
        PkmCompression::Etc1
    } else if t == 0x0001 {
        PkmCompression::Etc2
    } else if t == 0x0002 || t == 0x0004 {
        PkmCompression::Etc2A1
    } else if t == 0x0003 || t == 0x0005 {
        PkmCompression::Etc2A8
    } else if t == 0x1608 {
        PkmCompression::EacRgSigned
    } else if t == 0x1609 {
        PkmCompression::EacRSigned
    } else if t == 0x160a {
        PkmCompression::EacR
    } else if t == 0x160b {
        PkmCompression::EacRg
    } else {
        PkmCompression::Unknown
    }
}

/// The inner codec from the big-endian data type at offset 6.
pub open spec fn detect_compression_spec(d: Seq<u8>) -> ImageResult<PkmCompression> {
    if d.len() < 8 {
        Err(ImageError::IoError)
    } else {
        Ok(compression_of(be16(d, 6)))
    }
}

pub fn detect_compression(data: &[u8]) -> (r: ImageResult<PkmCompression>)
    ensures
        r == detect_compression_spec(data@),
{
    let data_type = read_u16(data, 6, &Endian::Big)?;
    let compression = if data_type == 0x0000 {
        PkmCompression::Etc1
    } else if data_type == 0x0001 {
        PkmCompression::Etc2
    } else if data_type == 0x0002 || data_type == 0x0004 {
        PkmCompression::Etc2A1
    } else if data_type == 0x0003 || data_type == 0x0005 {
        PkmCompression::Etc2A8
    } else if data_type == 0x1608 {
        PkmCompression::EacRgSigned
    } else if data_type == 0x1609 {
        PkmCompression::EacRSigned
    } else if data_type == 0x160a {
        PkmCompression::EacR
    } else if data_type == 0x160b {
        PkmCompression::EacRg
    } else {
        PkmCompression::Unknown
    };
    Ok(compression)
}

} // verus!
