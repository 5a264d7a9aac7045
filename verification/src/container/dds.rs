//! DirectDraw Surface container: the extent sits at a fixed offset; the
//! inner codec is named by the pixel-format FourCC, possibly indirected
//! through a DX10 extended header.

use vstd::prelude::*;

use crate::util::{bytes4_at, le32, read_u32, Endian};
use crate::{ImageError, ImageResult, ImageSize};

verus! {

/// Compression formats for DDS containers.
#[derive(Clone, Copy, Debug, PartialEq, Eq, PartialOrd, Ord, Hash)]
pub enum DdsCompression {
    /// Block Compression 1 (DXT1) - RGB, 1-bit alpha
    Bc1,
    /// Block Compression 2 (DXT3) - RGBA with explicit alpha
    Bc2,
    /// Block Compression 3 (DXT5) - RGBA with interpolated alpha
    Bc3,
    /// Block Compression 4 (ATI1) - Single channel
    Bc4,
    /// Block Compression 5 (ATI2) - Two channel (RG)
    Bc5,
    /// Block Compression 6H - HDR format
    Bc6h,
    /// Block Compression 7 - High quality RGB/RGBA
    Bc7,
    /// Uncompressed RGBA32
    Rgba32,
    /// Uncompressed RGB24
    Rgb24,
    /// Other/Unknown DDS format
    Unknown,
}

/// Height at offset 12 and width at offset 16, both little-endian 32-bit.
pub open spec fn size_spec(d: Seq<u8>) -> ImageResult<ImageSize> {
    if d.len() < 20 {
        Err(ImageError::IoError)
    } else {
        Ok(ImageSize { width: le32(d, 16) as usize, height: le32(d, 12) as usize })
    }
}

pub fn size(data: &[u8]) -> (r: ImageResult<ImageSize>)
    ensures
        r == size_spec(data@),
{
    let height = read_u32(data, 12, &Endian::Little)?;
    let width = read_u32(data, 16, &Endian::Little)?;
    Ok(ImageSize { width: width as usize, height: height as usize })
}

/// The four-byte magic `DDS `.
pub open spec fn matches_spec(h: Seq<u8>) -> bool {
    h.len() >= 4 && bytes4_at(h, 0, 0x44, 0x44, 0x53, 0x20)
}

pub fn matches(header: &[u8]) -> (r: bool)
    ensures
        r == matches_spec(header@),
{
    header.len() >= 4 && header[0] == 0x44 && header[1] == 0x44 && header[2] == 0x53 && header[3]
        == 0x20
}

/// The inner codec named by the DX10 extended header's DXGI format value.
pub open spec fn dx10_compression_of(f: int) -> DdsCompression {
    if f == 95 || f == 96 {
        DdsCompression::Bc6h
    } else if f == 98 || f == 99 {
        DdsCompression::Bc7
    } else {
        DdsCompression::Unknown
    }
}

/// The inner codec from the pixel-format FourCC at offset 84.  A `DX10`
/// FourCC defers to the DXGI format at offset 128; an all-zero FourCC is an
/// uncompressed layout told apart by the RGB bit count that follows it.
pub open spec fn detect_compression_spec(d: Seq<u8>) -> ImageResult<DdsCompression> {
    if d.len() < 88 {
        Err(ImageError::IoError)
    } else if bytes4_at(d, 84, 0x44, 0x58, 0x54, 0x31) {
        Ok(DdsCompression::Bc1)
    } else if bytes4_at(d, 84, 0x44, 0x58, 0x54, 0x33) {
        Ok(DdsCompression::Bc2)
    } else if bytes4_at(d, 84, 0x44, 0x58, 0x54, 0x35) {
        Ok(DdsCompression::Bc3)
    } else if bytes4_at(d, 84, 0x41, 0x54, 0x49, 0x31) || bytes4_at(d, 84, 0x42, 0x43, 0x34, 0x55)
        || bytes4_at(d, 84, 0x42, 0x43, 0x34, 0x53) {
        Ok(DdsCompression::Bc4)
    } else if bytes4_at(d, 84, 0x41, 0x54, 0x49, 0x32) || bytes4_at(d, 84, 0x42, 0x43, 0x35, 0x55)
        || bytes4_at(d, 84, 0x42, 0x43, 0x35, 0x53) {
        Ok(DdsCompression::Bc5)
    } else if bytes4_at(d, 84, 0x42, 0x43, 0x36, 0x48) {
        Ok(DdsCompression::Bc6h)
    } else if bytes4_at(d, 84, 0x42, 0x43, 0x37, 0x55) || bytes4_at(d, 84, 0x42, 0x43, 0x37, 0x4c) {
        Ok(DdsCompression::Bc7)
    } else if bytes4_at(d, 84, 0x44, 0x58, 0x31, 0x30) {
        if d.len() < 132 {
            Err(ImageError::IoError)
        } else {
            Ok(dx10_compression_of(le32(d, 128)))
        }
    } else if bytes4_at(d, 84, 0x00, 0x00, 0x00, 0x00) {
        if d.len() < 92 {
            Err(ImageError::IoError)
        } else if le32(d, 88) == 32 {
            Ok(DdsCompression::Rgba32)
        } else if le32(d, 88) == 24 {
            Ok(DdsCompression::Rgb24)
        } else {
            Ok(DdsCompression::Unknown)
        }
    } else {
        Ok(DdsCompression::Unknown)
    }
}

pub fn detect_compression(data: &[u8]) -> (r: ImageResult<DdsCompression>)
    ensures
        r == detect_compression_spec(data@),
{
    if data.len() < 88 {
        return Err(ImageError::IoError);
    }
    let c0 = data[84];
    let c1 = data[85];
    let c2 = data[86];
    let c3 = data[87];
    if c0 == 0x44 && c1 == 0x58 && c2 == 0x54 && c3 == 0x31 {
        Ok(DdsCompression::Bc1)
    } else if c0 == 0x44 && c1 == 0x58 && c2 == 0x54 && c3 == 0x33 {
        Ok(DdsCompression::Bc2)
    } else if c0 == 0x44 && c1 == 0x58 && c2 == 0x54 && c3 == 0x35 {
        Ok(DdsCompression::Bc3)
    } else if (c0 == 0x41 && c1 == 0x54 && c2 == 0x49 && c3 == 0x31) || (c0 == 0x42 && c1 == 0x43
        && c2 == 0x34 && (c3 == 0x55 || c3 == 0x53)) {
        Ok(DdsCompression::Bc4)
    } else if (c0 == 0x41 && c1 == 0x54 && c2 == 0x49 && c3 == 0x32) || (c0 == 0x42 && c1 == 0x43
        && c2 == 0x35 && (c3 == 0x55 || c3 == 0x53)) {
        Ok(DdsCompression::Bc5)
    } else if c0 == 0x42 && c1 == 0x43 && c2 == 0x36 && c3 == 0x48 {
        Ok(DdsCompression::Bc6h)
    } else if c0 == 0x42 && c1 == 0x43 && c2 == 0x37 && (c3 == 0x55 || c3 == 0x4c) {
        Ok(DdsCompression::Bc7)
    } else if c0 == 0x44 && c1 == 0x58 && c2 == 0x31 && c3 == 0x30 {
        let dxgi_format = read_u32(data, 128, &Endian::Little)?;
        if dxgi_format == 95 || dxgi_format == 96 {
            Ok(DdsCompression::Bc6h)
        } else if dxgi_format == 98 || dxgi_format == 99 {
            Ok(DdsCompression::Bc7)
        } else {
            Ok(DdsCompression::Unknown)
        }
    } else if c0 == 0x00 && c1 == 0x00 && c2 == 0x00 && c3 == 0x00 {
        let rgb_bit_count = read_u32(data, 88, &Endian::Little)?;
        if rgb_bit_count == 32 {
            Ok(DdsCompression::Rgba32)
        } else if rgb_bit_count == 24 {
            Ok(DdsCompression::Rgb24)
        } else {
            Ok(DdsCompression::Unknown)
        }
    } else {
        Ok(DdsCompression::Unknown)
    }
}

} // verus!
