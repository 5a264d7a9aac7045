//! TIFF and BigTIFF: a two-byte endianness marker, a type marker selecting
//! classic (32-bit offsets) or Big (64-bit offsets, plus two constant
//! header fields), one indirection to the first image file directory, then
//! a walk over its `(tag, type, count, value)` entries until both the width
//! tag 0x100 and the height tag 0x101 have been seen.

use vstd::prelude::*;

use crate::util::{read_u16, read_u32, read_u64, u16_at, u32_at, u64_at, Endian};
use crate::{ImageError, ImageResult, ImageSize};

verus! {

/// Byte width of an entry value for a given data-type code, `None` for a
/// code out of range (in classic TIFF the 64-bit codes 16..18 are too);
/// such a code is a structural contradiction, not an end-of-data.
pub open spec fn type_width(kind: int, big: bool) -> Option<int> {
    if kind == 1 || kind == 2 || kind == 6 || kind == 7 {
        Some(1)
    } else if kind == 3 || kind == 8 {
        Some(2)
    } else if kind == 4 || kind == 9 || kind == 11 || kind == 13 {
        Some(4)
    } else if kind == 5 || kind == 10 {
        Some(8)
    } else if kind == 12 {
        Some(8)
    } else if 16 <= kind <= 18 {
        if big {
            Some(8)
        } else {
            None
        }
    } else {
        None
    }
}

/// One directory entry: tag and type (16-bit each), a count (32- or 64-bit,
/// unused), then a value field of 4 (classic) or 8 (Big) bytes, parsed as a
/// 16- or 32-bit integer when the type has that width.  Width comes from
/// tag 0x100 and height from tag 0x101; the walk stops as soon as both are
/// present, or fails once the declared entry count is exhausted.
pub open spec fn ifd_scan_spec(
    d: Seq<u8>,
    e: Endian,
    big: bool,
    pos: int,
    remaining: int,
    w: Option<u32>,
    h: Option<u32>,
) -> ImageResult<ImageSize>
    decreases remaining,
{
    let cnt_w: int = if big {
        8
    } else {
        4
    };
    let val_w: int = if big {
        8
    } else {
        4
    };
    if remaining <= 0 {
        Err(ImageError::IoError)
    } else if pos + 4 + cnt_w > d.len() {
        Err(ImageError::IoError)
    } else {
        let tag = u16_at(d, pos, e);
        let kind = u16_at(d, pos + 2, e);
        match type_width(kind, big) {
            None => Err(ImageError::CorruptedImage),
            Some(value_bytes) => {
                let vpos = pos + 4 + cnt_w;
                if vpos + val_w > d.len() {
                    Err(ImageError::IoError)
                } else {
                    let value: Option<u32> = if value_bytes == 2 {
                        Some(u16_at(d, vpos, e) as u32)
                    } else if value_bytes == 4 {
                        Some(u32_at(d, vpos, e) as u32)
                    } else {
                        None
                    };
                    let w2 = if tag == 0x100 {
                        value
                    } else {
                        w
                    };
                    let h2 = if tag == 0x101 {
                        value
                    } else {
                        h
                    };
                    if w2 is Some && h2 is Some {
                        Ok(
                            ImageSize {
                                width: w2->0 as usize,
                                height: h2->0 as usize,
                            },
                        )
                    } else {
                        ifd_scan_spec(d, e, big, vpos + val_w, remaining - 1, w2, h2)
                    }
                }
            },
        }
    }
}

/// The whole parse: endianness marker, type marker, the BigTIFF constant
/// fields when present, the directory offset (which may not be zero), the
/// entry count, then the entry walk.  Markers, constants or offsets with
/// impossible values are structural contradictions; running out of bytes is
/// the end-of-data error.
pub open spec fn size_spec(d: Seq<u8>) -> ImageResult<ImageSize> {
    if d.len() < 2 {
        Err(ImageError::IoError)
    } else if !((d[0] == 0x49 && d[1] == 0x49) || (d[0] == 0x4d && d[1] == 0x4d)) {
        Err(ImageError::CorruptedImage)
    } else {
        let e = if d[0] == 0x49 {
            Endian::Little
        } else {
            Endian::Big
        };
        if d.len() < 4 {
            Err(ImageError::IoError)
        } else {
            let type_marker = u16_at(d, 2, e);
            if type_marker != 42 && type_marker != 43 {
                Err(ImageError::CorruptedImage)
            } else {
                let big = type_marker == 43;
                if big && d.len() < 6 {
                    Err(ImageError::IoError)
                } else if big && u16_at(d, 4, e) != 8 {
                    Err(ImageError::CorruptedImage)
                } else if big && d.len() < 8 {
                    Err(ImageError::IoError)
                } else if big && u16_at(d, 6, e) != 0 {
                    Err(ImageError::CorruptedImage)
                } else if d.len() < (if big {
                    16int
                } else {
                    8int
                }) {
                    Err(ImageError::IoError)
                } else {
                    let ifd_offset: int = if big {
                        u64_at(d, 8, e)
                    } else {
                        u32_at(d, 4, e)
                    };
                    if ifd_offset == 0 {
                        Err(ImageError::CorruptedImage)
                    } else {
                        let cw: int = if big {
                            8
                        } else {
                            2
                        };
                        if ifd_offset + cw > d.len() {
                            Err(ImageError::IoError)
                        } else {
                            let count: int = if big {
                                u64_at(d, ifd_offset, e)
                            } else {
                                u16_at(d, ifd_offset, e)
                            };
                            ifd_scan_spec(d, e, big, ifd_offset + cw, count, None, None)
                        }
                    }
                }
            }
        }
    }
}

pub fn size(data: &[u8]) -> (r: ImageResult<ImageSize>)
    ensures
        r == size_spec(data@),
{
    if data.len() < 2 {
        return Err(ImageError::IoError);
    }
    let endianness = if data[0] == 0x49 && data[1] == 0x49 {
        Endian::Little
    } else if data[0] == 0x4d && data[1] == 0x4d {
        Endian::Big
    } else {
        return Err(ImageError::CorruptedImage);
    };
    let type_marker = read_u16(data, 2, &endianness)?;
    if type_marker != 42 && type_marker != 43 {
        return Err(ImageError::CorruptedImage);
    }
    let big = type_marker == 43;
    if big {
        let offset_bytesize = read_u16(data, 4, &endianness)?;
        if offset_bytesize != 8 {
            return Err(ImageError::CorruptedImage);
        }
        let extra_field = read_u16(data, 6, &endianness)?;
        if extra_field != 0 {
            return Err(ImageError::CorruptedImage);
        }
    }
    let ifd_offset: u64 = if big {
        read_u64(data, 8, &endianness)?
    } else {
        read_u32(data, 4, &endianness)? as u64
    };
    if ifd_offset == 0 {
        return Err(ImageError::CorruptedImage);
    }
    if ifd_offset > data.len() as u64 {
        return Err(ImageError::IoError);
    }
    let ifd_pos = ifd_offset as usize;
    let count: u64 = if big {
        read_u64(data, ifd_pos, &endianness)?
    } else {
        read_u16(data, ifd_pos, &endianness)? as u64
    };
    let mut pos: usize = if big {
        ifd_pos + 8
    } else {
        ifd_pos + 2
    };
    let mut remaining = count;
    let mut width: Option<u32> = None;
    let mut height: Option<u32> = None;
    let ghost target = ifd_scan_spec(data@, endianness, big, pos as int, remaining as int, width, height);
    let mut result: ImageResult<ImageSize> = Err(ImageError::IoError);
    loop
        invariant_except_break
            ifd_scan_spec(
                data@,
                endianness,
                big,
                pos as int,
                remaining as int,
                width,
                height,
            ) == target,
        ensures
            result == target,
        decreases remaining,
    {
        let hdr_w: usize = if big {
            12
        } else {
            8
        };
        let val_w: usize = if big {
            8
        } else {
            4
        };
        if remaining == 0 {
            result = Err(ImageError::IoError);
            break;
        }
        if data.len() < hdr_w || pos > data.len() - hdr_w {
            result = Err(ImageError::IoError);
            break;
        }
        let tag = match read_u16(data, pos, &endianness) {
            Ok(v) => v,
            Err(e) => {
                result = Err(e);
                break;
            },
        };
        let kind = match read_u16(data, pos + 2, &endianness) {
            Ok(v) => v,
            Err(e) => {
                result = Err(e);
                break;
            },
        };
        let value_bytes: u8 = if kind == 1 || kind == 2 || kind == 6 || kind == 7 {
            1
        } else if kind == 3 || kind == 8 {
            2
        } else if kind == 4 || kind == 9 || kind == 11 || kind == 13 {
            4
        } else if kind == 5 || kind == 10 || kind == 12 {
            8
        } else if 16 <= kind && kind <= 18 && big {
            8
        } else {
            result = Err(ImageError::CorruptedImage);
            break;
        };
        let vpos = pos + hdr_w;
        if data.len() - vpos < val_w {
            result = Err(ImageError::IoError);
            break;
        }
        let value: Option<u32> = if value_bytes == 2 {
            match read_u16(data, vpos, &endianness) {
                Ok(v) => Some(v as u32),
                Err(e) => {
                    result = Err(e);
                    break;
                },
            }
        } else if value_bytes == 4 {
            match read_u32(data, vpos, &endianness) {
                Ok(v) => Some(v),
                Err(e) => {
                    result = Err(e);
                    break;
                },
            }
        } else {
            None
        };
        if tag == 0x100 {
            width = value;
        } else if tag == 0x101 {
            height = value;
        }
        if let (Some(w), Some(h)) = (width, height) {
            result = Ok(ImageSize { width: w as usize, height: h as usize });
            break;
        }
        pos = vpos + val_w;
        remaining = remaining - 1;
    }
    result
}

/// `II` or `MM` followed by the classic or Big type marker.
pub open spec fn matches_spec(h: Seq<u8>) -> bool {
    &&& h.len() >= 4
    &&& {
        ||| (h[0] == 0x49 && h[1] == 0x49 && (h[2] == 0x2a || h[2] == 0x2b) && h[3] == 0x00)
        ||| (h[0] == 0x4d && h[1] == 0x4d && h[2] == 0x00 && (h[3] == 0x2a || h[3] == 0x2b))
    }
}

pub fn matches(header: &[u8]) -> (r: bool)
    ensures
        r == matches_spec(header@),
{
    header.len() >= 4 && ((header[0] == 0x49 && header[1] == 0x49 && (header[2] == 0x2a
        || header[2] == 0x2b) && header[3] == 0x00) || (header[0] == 0x4d && header[1] == 0x4d
        && header[2] == 0x00 && (header[3] == 0x2a || header[3] == 0x2b)))
}

} // verus!
