//! ICO: a directory of up to 65535 embedded images; each 16-byte entry
//! opens with a one-byte width and height where 0 stands for 256.  The
//! reported size is the entry with the greatest pixel area, and a truncated
//! directory yields the best answer seen so far rather than a failure —
//! partial directories are common in the wild.

use vstd::prelude::*;

use crate::util::{le16, read_u16, Endian};
use crate::{ImageError, ImageResult, ImageSize};

verus! {

/// A stored directory byte, where 0 means 256.
pub open spec fn dim_of(b: u8) -> int {
    if b == 0 {
        256
    } else {
        b as int
    }
}

/// Walk up to `remaining` 16-byte entries from `pos`, keeping the entry of
/// greatest area (between equals, the later one).  The walk stops early at
/// the first entry that is not fully present; with no complete entry at all
/// there is no answer.
pub open spec fn entry_scan_spec(
    d: Seq<u8>,
    pos: int,
    remaining: int,
    best_w: int,
    best_h: int,
    any: bool,
) -> ImageResult<ImageSize>
    decreases remaining,
{
    if remaining <= 0 || pos + 16 > d.len() {
        if any {
            Ok(ImageSize { width: best_w as usize, height: best_h as usize })
        } else {
            Err(ImageError::CorruptedImage)
        }
    } else {
        let w = dim_of(d[pos]);
        let h = dim_of(d[pos + 1]);
        if !any || w * h >= best_w * best_h {
            entry_scan_spec(d, pos + 16, remaining - 1, w, h, true)
        } else {
            entry_scan_spec(d, pos + 16, remaining - 1, best_w, best_h, true)
        }
    }
}

/// The 16-bit image count sits at offset 4; entries start at offset 6.
pub open spec fn size_spec(d: Seq<u8>) -> ImageResult<ImageSize> {
    if d.len() < 6 {
        Err(ImageError::IoError)
    } else {
        entry_scan_spec(d, 6, le16(d, 4), 0, 0, false)
    }
}

fn dim_byte(b: u8) -> (r: u16)
    ensures
        r == dim_of(b),
{
    if b == 0 {
        256
    } else {
        b as u16
    }
}

pub fn size(data: &[u8]) -> (r: ImageResult<ImageSize>)
    ensures
        r == size_spec(data@),
{
    let count = read_u16(data, 4, &Endian::Little)?;
    let ghost target = entry_scan_spec(data@, 6, count as int, 0, 0, false);
    let mut remaining = count;
    let mut pos: usize = 6;
    let mut best_w: u16 = 0;
    let mut best_h: u16 = 0;
    let mut any = false;
    loop
        invariant_except_break
            6 <= pos <= data@.len() + 16,
            best_w <= 256 && best_h <= 256,
            entry_scan_spec(
                data@,
                pos as int,
                remaining as int,
                best_w as int,
                best_h as int,
                any,
            ) == target,
        ensures
            (if any {
                target == Ok::<ImageSize, ImageError>(
                    (ImageSize { width: best_w as usize, height: best_h as usize }),
                )
            } else {
                target == Err::<ImageSize, ImageError>(ImageError::CorruptedImage)
            }),
        decreases remaining,
    {
        if remaining == 0 || data.len() < 16 || pos > data.len() - 16 {
            break;
        }
        let w = dim_byte(data[pos]);
        let h = dim_byte(data[pos + 1]);
        proof {
            assert((w as int) * (h as int) <= 0x10000 && (best_w as int) * (best_h as int)
                <= 0x10000) by (nonlinear_arith)
                requires
                    w <= 256,
                    h <= 256,
                    best_w <= 256,
                    best_h <= 256,
            ;
        }
        if !any || (w as u32) * (h as u32) >= (best_w as u32) * (best_h as u32) {
            best_w = w;
            best_h = h;
        }
        any = true;
        remaining = remaining - 1;
        pos = pos + 16;
    }
    if any {
        Ok(ImageSize { width: best_w as usize, height: best_h as usize })
    } else {
        Err(ImageError::CorruptedImage)
    }
}

/// Law: a stored directory byte of 0 decodes as 256; any other byte is the
/// dimension itself.
pub proof fn lemma_ico_dim_decode(b: u8)
    ensures
        b == 0 ==> dim_of(b) == 256,
        b != 0 ==> dim_of(b) == b,
{
}

/// The entry walk never reports a smaller area than its running best.
proof fn lemma_entry_scan_ge_best(d: Seq<u8>, pos: int, remaining: int, bw: int, bh: int)
    requires
        entry_scan_spec(d, pos, remaining, bw, bh, true) is Ok,
        0 <= bw <= 256,
        0 <= bh <= 256,
    ensures
        entry_scan_spec(d, pos, remaining, bw, bh, true)->Ok_0.width * entry_scan_spec(
            d,
            pos,
            remaining,
            bw,
            bh,
            true,
        )->Ok_0.height >= bw * bh,
    decreases remaining,
{
    if remaining <= 0 || pos + 16 > d.len() {
    } else {
        let w = dim_of(d[pos]);
        let h = dim_of(d[pos + 1]);
        if w * h >= bw * bh {
            lemma_entry_scan_ge_best(d, pos + 16, remaining - 1, w, h);
        } else {
            lemma_entry_scan_ge_best(d, pos + 16, remaining - 1, bw, bh);
        }
    }
}

/// The walk's answer has at least the area of the entry at index `i`.
proof fn lemma_entry_scan_covers(d: Seq<u8>, pos: int, remaining: int, bw: int, bh: int, any: bool, i: int)
    requires
        entry_scan_spec(d, pos, remaining, bw, bh, any) is Ok,
        0 <= bw <= 256,
        0 <= bh <= 256,
        0 <= i < remaining,
        pos + 16 * i + 16 <= d.len(),
        0 <= pos,
    ensures
        entry_scan_spec(d, pos, remaining, bw, bh, any)->Ok_0.width * entry_scan_spec(
            d,
            pos,
            remaining,
            bw,
            bh,
            any,
        )->Ok_0.height >= dim_of(d[pos + 16 * i]) * dim_of(d[pos + 16 * i + 1]),
    decreases i,
{
    let w = dim_of(d[pos]);
    let h = dim_of(d[pos + 1]);
    if i == 0 {
        if !any || w * h >= bw * bh {
            lemma_entry_scan_ge_best(d, pos + 16, remaining - 1, w, h);
        } else {
            lemma_entry_scan_ge_best(d, pos + 16, remaining - 1, bw, bh);
        }
    } else {
        if !any || w * h >= bw * bh {
            lemma_entry_scan_covers(d, pos + 16, remaining - 1, w, h, true, i - 1);
        } else {
            lemma_entry_scan_covers(d, pos + 16, remaining - 1, bw, bh, true, i - 1);
        }
    }
}

/// Law: when an icon directory parses, the reported size has the greatest
/// pixel area among all fully-present directory entries — matching the
/// area ordering on sizes.
pub proof fn lemma_ico_picks_largest_area(d: Seq<u8>, i: int)
    requires
        size_spec(d) is Ok,
        0 <= i < le16(d, 4),
        6 + 16 * i + 16 <= d.len(),
    ensures
        size_spec(d)->Ok_0.width * size_spec(d)->Ok_0.height >= dim_of(d[6 + 16 * i]) * dim_of(
            d[6 + 16 * i + 1],
        ),
{
    lemma_entry_scan_covers(d, 6, le16(d, 4), 0, 0, false, i);
}

/// True when the walk's answer is the decoded pair of the entry at index
/// `k` from `pos`.
pub open spec fn is_entry_at(d: Seq<u8>, pos: int, k: int, s: ImageSize) -> bool {
    &&& 0 <= k
    &&& pos + 16 * k + 16 <= d.len()
    &&& s.width == dim_of(d[pos + 16 * k])
    &&& s.height == dim_of(d[pos + 16 * k + 1])
}

/// The walk's answer is either the running best it was handed or one of
/// the entries it visits.
proof fn lemma_entry_scan_yields_entry(
    d: Seq<u8>,
    pos: int,
    remaining: int,
    bw: int,
    bh: int,
    any: bool,
)
    requires
        entry_scan_spec(d, pos, remaining, bw, bh, any) is Ok,
        0 <= bw <= 256,
        0 <= bh <= 256,
        0 <= pos,
    ensures
        ({
            let s = entry_scan_spec(d, pos, remaining, bw, bh, any)->Ok_0;
            (any && s.width == bw && s.height == bh) || exists|k: int|
                k < remaining && #[trigger] is_entry_at(d, pos, k, s)
        }),
    decreases remaining,
{
    let s = entry_scan_spec(d, pos, remaining, bw, bh, any)->Ok_0;
    if remaining <= 0 || pos + 16 > d.len() {
    } else {
        let w = dim_of(d[pos]);
        let h = dim_of(d[pos + 1]);
        if !any || w * h >= bw * bh {
            lemma_entry_scan_yields_entry(d, pos + 16, remaining - 1, w, h, true);
            if s.width == w && s.height == h {
                assert(is_entry_at(d, pos, 0, s));
            } else {
                let k = choose|k: int| k < remaining - 1 && #[trigger] is_entry_at(
                    d,
                    pos + 16,
                    k,
                    s,
                );
                assert(is_entry_at(d, pos, k + 1, s));
            }
        } else {
            lemma_entry_scan_yields_entry(d, pos + 16, remaining - 1, bw, bh, true);
            if s.width == bw && s.height == bh {
            } else {
                let k = choose|k: int| k < remaining - 1 && #[trigger] is_entry_at(
                    d,
                    pos + 16,
                    k,
                    s,
                );
                assert(is_entry_at(d, pos, k + 1, s));
            }
        }
    }
}

/// Law: the reported size of an icon directory is the decoded pair of one
/// of its fully-present entries — never a fabricated value.
pub proof fn lemma_ico_result_is_an_entry(d: Seq<u8>)
    requires
        size_spec(d) is Ok,
    ensures
        exists|k: int|
            k < le16(d, 4) && #[trigger] is_entry_at(d, 6, k, size_spec(d)->Ok_0),
{
    lemma_entry_scan_yields_entry(d, 6, le16(d, 4), 0, 0, false);
}

/// The reserved word 0 followed by the icon type word 1.
pub open spec fn matches_spec(h: Seq<u8>) -> bool {
    h.len() >= 4 && h[0] == 0x00 && h[1] == 0x00 && h[2] == 0x01 && h[3] == 0x00
}

pub fn matches(header: &[u8]) -> (r: bool)
    ensures
        r == matches_spec(header@),
{
    header.len() >= 4 && header[0] == 0x00 && header[1] == 0x00 && header[2] == 0x01 && header[3]
        == 0x00
}

} // verus!
