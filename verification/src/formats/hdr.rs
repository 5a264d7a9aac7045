//! Radiance HDR: a textual header.  The first line must carry the format
//! identifier; a later line of the form `-Y <height> +X <width>` gives the
//! extent.  Lines are read with a cap so a file with no line terminator
//! cannot force unbounded reads.

use vstd::prelude::*;

use crate::util::{line_capped_spec, parse_usize, parse_usize_spec, read_line_capped, split_ws, tokens_from};
use crate::{ImageError, ImageResult, ImageSize};

verus! {

/// One line step: blank lines and lines that do not begin with `-Y` are
/// skipped; a `-Y` line must split into exactly four tokens whose second
/// and fourth parse as height and width.
pub open spec fn line_scan_spec(d: Seq<u8>, pos: int) -> ImageResult<ImageSize>
    decreases d.len() - pos,
    when 0 <= pos <= d.len()
    via line_scan_dec
{
    match line_capped_spec(d, pos, 256) {
        Err(e) => Err(e),
        Ok((line, newpos)) => {
            if tokens_from(line, 0).len() == 0 {
                line_scan_spec(d, newpos)
            } else if !(line.len() >= 2 && line[0] == 0x2d && line[1] == 0x59) {
                line_scan_spec(d, newpos)
            } else {
                let toks = tokens_from(line, 0);
                if toks.len() != 4 {
                    Err(ImageError::IoError)
                } else {
                    match (parse_usize_spec(toks[1]), parse_usize_spec(toks[3])) {
                        (Some(h), Some(w)) => Ok(ImageSize { width: w, height: h }),
                        _ => Err(ImageError::IoError),
                    }
                }
            }
        },
    }
}

#[via_fn]
proof fn line_scan_dec(d: Seq<u8>, pos: int) {
    if 0 <= pos <= d.len() {
        crate::util::lemma_find_byte(d, pos, 0x0a);
    }
}

/// True when the first line opens with `#?RADIANCE` or `#?RGBE`.
pub open spec fn valid_identifier(line: Seq<u8>) -> bool {
    ||| (line.len() >= 10 && line[0] == 0x23 && line[1] == 0x3f && line[2] == 0x52 && line[3]
        == 0x41 && line[4] == 0x44 && line[5] == 0x49 && line[6] == 0x41 && line[7] == 0x4e
        && line[8] == 0x43 && line[9] == 0x45)
    ||| (line.len() >= 6 && line[0] == 0x23 && line[1] == 0x3f && line[2] == 0x52 && line[3] == 0x47
        && line[4] == 0x42 && line[5] == 0x45)
}

/// The identifier line is read with an 11-byte cap (the longest valid
/// identifier plus its newline); the dimension lines follow.
pub open spec fn size_spec(d: Seq<u8>) -> ImageResult<ImageSize> {
    match line_capped_spec(d, 0, 11) {
        Err(e) => Err(e),
        Ok((first, p)) => {
            if valid_identifier(first) {
                line_scan_spec(d, p)
            } else {
                Err(ImageError::IoError)
            }
        },
    }
}

pub fn size(data: &[u8]) -> (r: ImageResult<ImageSize>)
    ensures
        r == size_spec(data@),
{
    let (first, start) = match read_line_capped(data, 0, 11) {
        Ok(v) => v,
        Err(e) => {
            return Err(e);
        },
    };
    let radiance = first.len() >= 10 && first[0] == 0x23 && first[1] == 0x3f && first[2] == 0x52
        && first[3] == 0x41 && first[4] == 0x44 && first[5] == 0x49 && first[6] == 0x41 && first[7]
        == 0x4e && first[8] == 0x43 && first[9] == 0x45;
    let rgbe = first.len() >= 6 && first[0] == 0x23 && first[1] == 0x3f && first[2] == 0x52
        && first[3] == 0x47 && first[4] == 0x42 && first[5] == 0x45;
    if !(radiance || rgbe) {
        return Err(ImageError::IoError);
    }
    let ghost target = line_scan_spec(data@, start as int);
    let mut pos = start;
    let mut result: ImageResult<ImageSize> = Err(ImageError::IoError);
    loop
        invariant_except_break
            0 <= pos <= data@.len(),
            line_scan_spec(data@, pos as int) == target,
        ensures
            result == target,
        decreases data@.len() - pos,
    {
        let (line, newpos) = match read_line_capped(data, pos, 256) {
            Ok(v) => v,
            Err(e) => {
                result = Err(e);
                break;
            },
        };
        let toks = split_ws(line.as_slice());
        if toks.len() == 0 {
            pos = newpos;
            continue ;
        }
        if !(line.len() >= 2 && line[0] == 0x2d && line[1] == 0x59) {
            pos = newpos;
            continue ;
        }
        if toks.len() != 4 {
            result = Err(ImageError::IoError);
            break;
        }
        let height = parse_usize(toks[1].as_slice());
        let width = parse_usize(toks[3].as_slice());
        match (width, height) {
            (Some(w), Some(h)) => {
                result = Ok(ImageSize { width: w, height: h });
            },
            _ => {
                result = Err(ImageError::IoError);
            },
        }
        break;
    }
    result
}

/// The identifier `#?RADIANCE` or `#?RGBE`, newline included.
pub open spec fn matches_spec(h: Seq<u8>) -> bool {
    ||| (h.len() >= 11 && h[0] == 0x23 && h[1] == 0x3f && h[2] == 0x52 && h[3] == 0x41 && h[4]
        == 0x44 && h[5] == 0x49 && h[6] == 0x41 && h[7] == 0x4e && h[8] == 0x43 && h[9] == 0x45
        && h[10] == 0x0a)
    ||| (h.len() >= 7 && h[0] == 0x23 && h[1] == 0x3f && h[2] == 0x52 && h[3] == 0x47 && h[4]
        == 0x42 && h[5] == 0x45 && h[6] == 0x0a)
}

pub fn matches(header: &[u8]) -> (r: bool)
    ensures
        r == matches_spec(header@),
{
    (header.len() >= 11 && header[0] == 0x23 && header[1] == 0x3f && header[2] == 0x52 && header[3]
        == 0x41 && header[4] == 0x44 && header[5] == 0x49 && header[6] == 0x41 && header[7] == 0x4e
        && header[8] == 0x43 && header[9] == 0x45 && header[10] == 0x0a) || (header.len() >= 7
        && header[0] == 0x23 && header[1] == 0x3f && header[2] == 0x52 && header[3] == 0x47
        && header[4] == 0x42 && header[5] == 0x45 && header[6] == 0x0a)
}

} // verus!
