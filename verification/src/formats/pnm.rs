//! PNM (portable any map): after the two-byte subtype the dimensions stand
//! on the first line that is neither blank nor a `#` comment, as two (or,
//! with the maximum value, three) whitespace-separated decimal tokens.

use vstd::prelude::*;

use crate::util::{line_capped_spec, parse_usize, parse_usize_spec, read_line_capped, split_ws, tokens_from};
use crate::{ImageError, ImageResult, ImageSize};

verus! {

/// One line step: blank lines and comments are skipped; the first other
/// line must split into two or three tokens whose first two parse as width
/// and height.
pub open spec fn line_scan_spec(d: Seq<u8>, pos: int) -> ImageResult<ImageSize>
    decreases d.len() - pos,
    when 0 <= pos <= d.len()
    via line_scan_dec
{
    match line_capped_spec(d, pos, 1024) {
        Err(e) => Err(e),
        Ok((line, newpos)) => {
            let toks = tokens_from(line, 0);
            if toks.len() == 0 {
                line_scan_spec(d, newpos)
            } else if toks[0][0] == 0x23 {
                line_scan_spec(d, newpos)
            } else if toks.len() != 2 && toks.len() != 3 {
                Err(ImageError::IoError)
            } else {
                match (parse_usize_spec(toks[0]), parse_usize_spec(toks[1])) {
                    (Some(w), Some(h)) => Ok(ImageSize { width: w, height: h }),
                    _ => Err(ImageError::IoError),
                }
            }
        },
    }
}

#[via_fn]
proof fn line_scan_dec(d: Seq<u8>, pos: int) {
    if 0 <= pos <= d.len() {
        crate::util::lemma_find_byte(d, pos, 0x0a);
    }
}

/// Scanning starts right after the two-byte subtype.
pub open spec fn size_spec(d: Seq<u8>) -> ImageResult<ImageSize> {
    if d.len() < 2 {
        Err(ImageError::IoError)
    } else {
        line_scan_spec(d, 2)
    }
}

pub fn size(data: &[u8]) -> (r: ImageResult<ImageSize>)
    ensures
        r == size_spec(data@),
{
    if data.len() < 2 {
        return Err(ImageError::IoError);
    }
    let ghost target = line_scan_spec(data@, 2);
    let mut pos: usize = 2;
    let mut result: ImageResult<ImageSize> = Err(ImageError::IoError);
    loop
        invariant_except_break
            0 <= pos <= data@.len(),
            line_scan_spec(data@, pos as int) == target,
        ensures
            result == target,
        decreases data@.len() - pos,
    {
        let (line, newpos) = match read_line_capped(data, pos, 1024) {
            Ok(v) => v,
            Err(e) => {
                result = Err(e);
                break;
            },
        };
        let toks = split_ws(line.as_slice());
        proof {
            crate::util::lemma_tokens_nonempty(line@, 0);
        }
        if toks.len() == 0 {
            pos = newpos;
            continue ;
        }
        if toks[0][0] == 0x23 {
            pos = newpos;
            continue ;
        }
        if toks.len() != 2 && toks.len() != 3 {
            result = Err(ImageError::IoError);
            break;
        }
        let width = parse_usize(toks[0].as_slice());
        let height = parse_usize(toks[1].as_slice());
        match (width, height) {
            (Some(w), Some(h)) => {
                result = Ok(ImageSize { width: w, height: h });
            },
            _ => {
                result = Err(ImageError::IoError);
            },
        }
        break;
    }
    result
}

/// A `P` followed by any subtype byte: the heuristic is deliberately loose
/// and relies on being tried late in the dispatch order.
pub open spec fn matches_spec(h: Seq<u8>) -> bool {
    h.len() >= 2 && h[0] == 0x50
}

pub fn matches(header: &[u8]) -> (r: bool)
    ensures
        r == matches_spec(header@),
{
    header.len() >= 2 && header[0] == 0x50
}

} // verus!
