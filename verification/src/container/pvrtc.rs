//! PowerVR texture container, in its legacy and v3 layouts.  The v3 pixel
//! format names the inner codec; the legacy layout does not carry one.

use vstd::prelude::*;

use crate::util::{le32, le64, read_u32, read_u64, Endian};
use crate::{ImageError, ImageResult, ImageSize};

verus! {

/// Compression formats for PowerVR containers.
#[derive(Clone, Copy, Debug, PartialEq, Eq, PartialOrd, Ord, Hash)]
pub enum PvrtcCompression {
    /// PVRTC 2 bits per pixel RGB
    Pvrtc2BppRgb,
    /// PVRTC 2 bits per pixel RGBA
    Pvrtc2BppRgba,
    /// PVRTC 4 bits per pixel RGB
    Pvrtc4BppRgb,
    /// PVRTC 4 bits per pixel RGBA
    Pvrtc4BppRgba,
    /// ETC2 RGB compression
    Etc2Rgb,
    /// ETC2 RGBA compression
    Etc2Rgba,
    /// ETC2 RGB with 1-bit alpha
    Etc2RgbA1,
    /// EAC R11 (single channel)
    EacR11,
    /// EAC RG11 (dual channel)
    EacRg11,
    /// Other/Unknown format
    Unknown,
}

/// The v3 signature `PVR\x03`.
pub open spec fn is_v3(d: Seq<u8>) -> bool {
    d[0] == 0x50 && d[1] == 0x56 && d[2] == 0x52 && d[3] == 0x03
}

/// v3: height at offset 24 and width at offset 28; legacy: height at
/// offset 4 and width at offset 8.  All little-endian 32-bit.
pub open spec fn size_spec(d: Seq<u8>) -> ImageResult<ImageSize> {
    if d.len() < 4 {
        Err(ImageError::IoError)
    } else if is_v3(d) {
        if d.len() < 32 {
            Err(ImageError::IoError)
        } else {
            Ok(ImageSize { width: le32(d, 28) as usize, height: le32(d, 24) as usize })
        }
    } else {
        if d.len() < 12 {
            Err(ImageError::IoError)
        } else {
            Ok(ImageSize { width: le32(d, 8) as usize, height: le32(d, 4) as usize })
        }
    }
}

pub fn size(data: &[u8]) -> (r: ImageResult<ImageSize>)
    ensures
        r == size_spec(data@),
{
    if data.len() < 4 {
        return Err(ImageError::IoError);
    }
    if data[0] == 0x50 && data[1] == 0x56 && data[2] == 0x52 && data[3] == 0x03 {
        let height = read_u32(data, 24, &Endian::Little)?;
        let width = read_u32(data, 28, &Endian::Little)?;
        Ok(ImageSize { width: width as usize, height: height as usize })
    } else {
        let height = read_u32(data, 4, &Endian::Little)?;
        let width = read_u32(data, 8, &Endian::Little)?;
        Ok(ImageSize { width: width as usize, height: height as usize })
    }
}

/// A legacy header size of 52, the `PVR!` marker at offset 44, or the v3
/// signature.
pub open spec fn matches_spec(h: Seq<u8>) -> bool {
    ||| (h.len() >= 4 && le32(h, 0) == 52)
    ||| (h.len() >= 48 && h[44] == 0x50 && h[45] == 0x56 && h[46] == 0x52 && h[47] == 0x21)
    ||| (h.len() >= 4 && is_v3(h))
}

pub fn matches(header: &[u8]) -> (r: bool)
    ensures
        r == matches_spec(header@),
{
    if header.len() >= 4 {
        let header_size = match read_u32(header, 0, &Endian::Little) {
            Ok(v) => v,
            Err(_) => 0,
        };
        if header_size == 52 {
            return true;
        }
    }
    if header.len() >= 48 && header[44] == 0x50 && header[45] == 0x56 && header[46] == 0x52
        && header[47] == 0x21 {
        return true;
    }
    header.len() >= 4 && header[0] == 0x50 && header[1] == 0x56 && header[2] == 0x52 && header[3]
        == 0x03
}

/// The inner codec named by a v3 pixel-format value.
pub open spec fn compression_of(f: int) -> PvrtcCompression {
    if f == 0 {
        PvrtcCompression::Pvrtc2BppRgb
    } else if f == 1 {
        PvrtcCompression::Pvrtc2BppRgba
    } else if f == 2 {
        PvrtcCompression::Pvrtc4BppRgb
    } else if f == 3 {
        PvrtcCompression::Pvrtc4BppRgba
    } else if f == 22 {
        PvrtcCompression::Etc2Rgb
    } else if f == 23 {
        PvrtcCompression::Etc2Rgba
    } else if f == 24 {
        PvrtcCompression::Etc2RgbA1
    } else if f == 25 {
        PvrtcCompression::EacR11
    } else if f == 26 {
        PvrtcCompression::EacRg11
    } else {
        PvrtcCompression::Unknown
    }
}

/// The inner codec from the v3 pixel format at offset 8; a legacy header
/// carries none and yields `Unknown`.
pub open spec fn detect_compression_spec(d: Seq<u8>) -> ImageResult<PvrtcCompression> {
    if d.len() < 4 {
        Err(ImageError::IoError)
    } else if is_v3(d) {
        if d.len() < 16 {
            Err(ImageError::IoError)
        } else {
            Ok(compression_of(le64(d, 8)))
        }
    } else {
        Ok(PvrtcCompression::Unknown)
    }
}

pub fn detect_compression(data: &[u8]) -> (r: ImageResult<PvrtcCompression>)
    ensures
        r == detect_compression_spec(data@),
{
    if data.len() < 4 {
        return Err(ImageError::IoError);
    }
    if data[0] == 0x50 && data[1] == 0x56 && data[2] == 0x52 && data[3] == 0x03 {
        let pixel_format = read_u64(data, 8, &Endian::Little)?;
        let compression = if pixel_format == 0 {
            PvrtcCompression::Pvrtc2BppRgb
        } else if pixel_format == 1 {
            PvrtcCompression::Pvrtc2BppRgba
        } else if pixel_format == 2 {
            PvrtcCompression::Pvrtc4BppRgb
        } else if pixel_format == 3 {
            PvrtcCompression::Pvrtc4BppRgba
        } else if pixel_format == 22 {
            PvrtcCompression::Etc2Rgb
        } else if pixel_format == 23 {
            PvrtcCompression::Etc2Rgba
        } else if pixel_format == 24 {
            PvrtcCompression::Etc2RgbA1
        } else if pixel_format == 25 {
            PvrtcCompression::EacR11
        } else if pixel_format == 26 {
            PvrtcCompression::EacRg11
        } else {
            PvrtcCompression::Unknown
        };
        Ok(compression)
    } else {
        Ok(PvrtcCompression::Unknown)
    }
}

} // verus!
