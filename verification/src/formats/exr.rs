//! OpenEXR: the header is a list of attributes, each a null-terminated
//! name, a null-terminated type, a 32-bit size and a value.  The extent
//! comes from the `dataWindow` attribute of type `box2i`, whose four signed
//! 32-bit corners give width and height as inclusive spans.

use vstd::prelude::*;

use crate::util::{
    i32_of, le32, nts_bytes, nts_end, read_i32, read_null_terminated_string, read_u32, Endian,
};
use crate::{ImageError, ImageResult, ImageSize};

verus! {

pub open spec fn data_window_name() -> Seq<u8> {
    seq![0x64u8, 0x61u8, 0x74u8, 0x61u8, 0x57u8, 0x69u8, 0x6eu8, 0x64u8, 0x6fu8, 0x77u8]
}

pub open spec fn box2i_name() -> Seq<u8> {
    seq![0x62u8, 0x6fu8, 0x78u8, 0x32u8, 0x69u8]
}

/// The spans of a `box2i` window.  A window whose maximum lies before its
/// minimum, or whose span does not fit 32 bits, is a structural
/// contradiction.
pub open spec fn window_size(xmin: int, ymin: int, xmax: int, ymax: int) -> ImageResult<ImageSize> {
    let w = xmax - xmin + 1;
    let h = ymax - ymin + 1;
    if w <= 0 || h <= 0 || w > 0xffff_ffff || h > 0xffff_ffff {
        Err(ImageError::CorruptedImage)
    } else {
        Ok(ImageSize { width: w as usize, height: h as usize })
    }
}

/// One attribute step: an empty name ends the list (the window was not
/// found); otherwise a name, a type and a 32-bit size precede the value,
/// which is either the sought `dataWindow` `box2i` or skipped by its size.
pub open spec fn attr_scan_spec(d: Seq<u8>, pos: int) -> ImageResult<ImageSize>
    decreases d.len() - pos,
    when 0 <= pos <= d.len()
    via attr_scan_dec
{
    let name = nts_bytes(d, pos);
    let p1 = nts_end(d, pos);
    if name.len() == 0 {
        Err(ImageError::IoError)
    } else {
        let typ = nts_bytes(d, p1);
        let p2 = nts_end(d, p1);
        if p2 + 4 > d.len() {
            Err(ImageError::IoError)
        } else {
            let attr_size = le32(d, p2);
            let p3 = p2 + 4;
            if name == data_window_name() && typ == box2i_name() {
                if p3 + 16 > d.len() {
                    Err(ImageError::IoError)
                } else {
                    window_size(
                        i32_of(le32(d, p3)),
                        i32_of(le32(d, p3 + 4)),
                        i32_of(le32(d, p3 + 8)),
                        i32_of(le32(d, p3 + 12)),
                    )
                }
            } else if p3 + attr_size > d.len() {
                Err(ImageError::IoError)
            } else {
                attr_scan_spec(d, p3 + attr_size)
            }
        }
    }
}

#[via_fn]
proof fn attr_scan_dec(d: Seq<u8>, pos: int) {
    if 0 <= pos <= d.len() {
        crate::util::lemma_find_byte(d, pos, 0);
        crate::util::lemma_find_byte(d, nts_end(d, pos), 0);
    }
}

/// Attributes start at offset 8, past the magic number and version word.
pub open spec fn size_spec(d: Seq<u8>) -> ImageResult<ImageSize> {
    if d.len() < 8 {
        Err(ImageError::IoError)
    } else {
        attr_scan_spec(d, 8)
    }
}

fn is_data_window(name: &Vec<u8>) -> (r: bool)
    ensures
        r == (name@ == data_window_name()),
{
    let r = name.len() == 10 && name[0] == 0x64 && name[1] == 0x61 && name[2] == 0x74 && name[3]
        == 0x61 && name[4] == 0x57 && name[5] == 0x69 && name[6] == 0x6e && name[7] == 0x64
        && name[8] == 0x6f && name[9] == 0x77;
    proof {
        if r {
            assert(name@ =~= data_window_name());
        }
    }
    r
}

fn is_box2i(typ: &Vec<u8>) -> (r: bool)
    ensures
        r == (typ@ == box2i_name()),
{
    let r = typ.len() == 5 && typ[0] == 0x62 && typ[1] == 0x6f && typ[2] == 0x78 && typ[3] == 0x32
        && typ[4] == 0x69;
    proof {
        if r {
            assert(typ@ =~= box2i_name());
        }
    }
    r
}

pub fn size(data: &[u8]) -> (r: ImageResult<ImageSize>)
    ensures
        r == size_spec(data@),
{
    if data.len() < 8 {
        return Err(ImageError::IoError);
    }
    let ghost target = attr_scan_spec(data@, 8);
    let mut pos: usize = 8;
    let mut result: ImageResult<ImageSize> = Err(ImageError::IoError);
    loop
        invariant_except_break
            8 <= pos <= data@.len(),
            attr_scan_spec(data@, pos as int) == target,
        ensures
            result == target,
        decreases data@.len() - pos,
    {
        let (name, p1) = read_null_terminated_string(data, pos);
        if name.len() == 0 {
            result = Err(ImageError::IoError);
            break;
        }
        let (typ, p2) = read_null_terminated_string(data, p1);
        if data.len() - p2 < 4 {
            result = Err(ImageError::IoError);
            break;
        }
        let attr_size = match read_u32(data, p2, &Endian::Little) {
            Ok(v) => v,
            Err(e) => {
                result = Err(e);
                break;
            },
        };
        let p3 = p2 + 4;
        if is_data_window(&name) && is_box2i(&typ) {
            if data.len() - p3 < 16 {
                result = Err(ImageError::IoError);
                break;
            }
            let xmin = match read_i32(data, p3, &Endian::Little) {
                Ok(v) => v,
                Err(e) => {
                    result = Err(e);
                    break;
                },
            };
            let ymin = match read_i32(data, p3 + 4, &Endian::Little) {
                Ok(v) => v,
                Err(e) => {
                    result = Err(e);
                    break;
                },
            };
            let xmax = match read_i32(data, p3 + 8, &Endian::Little) {
                Ok(v) => v,
                Err(e) => {
                    result = Err(e);
                    break;
                },
            };
            let ymax = match read_i32(data, p3 + 12, &Endian::Little) {
                Ok(v) => v,
                Err(e) => {
                    result = Err(e);
                    break;
                },
            };
            let w: i64 = xmax as i64 - xmin as i64 + 1;
            let h: i64 = ymax as i64 - ymin as i64 + 1;
            if w <= 0 || h <= 0 || w > 0xffff_ffff || h > 0xffff_ffff {
                result = Err(ImageError::CorruptedImage);
                break;
            }
            result = Ok(ImageSize { width: w as u32 as usize, height: h as u32 as usize });
            break;
        }
        if ((data.len() - p3) as u64) < attr_size as u64 {
            result = Err(ImageError::IoError);
            break;
        }
        pos = p3 + attr_size as usize;
    }
    result
}

/// The four-byte magic number 0x76 0x2F 0x31 0x01.
pub open spec fn matches_spec(h: Seq<u8>) -> bool {
    h.len() >= 4 && h[0] == 0x76 && h[1] == 0x2f && h[2] == 0x31 && h[3] == 0x01
}

pub fn matches(header: &[u8]) -> (r: bool)
    ensures
        r == matches_spec(header@),
{
    header.len() >= 4 && header[0] == 0x76 && header[1] == 0x2f && header[2] == 0x31 && header[3]
        == 0x01
}

} // verus!
