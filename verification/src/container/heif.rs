//! ISO-BMFF-derived image container (HEIF/AVIF): box-walking parser.
//!
//! The file opens with an `ftyp` box whose brands identify the codec; the
//! dimensions live in `ispe` boxes nested under `meta` → `iprp` → `ipco`.
//! An item container may hold several images (thumbnails, alternates), so
//! the scan keeps the maximum-by-area `ispe`; an `irot` box of 1 or 3
//! quarter-turns transposes the final answer.

use vstd::prelude::*;

use crate::util::{be32, bytes4_at, read_tag, read_u32, tag_at, Endian};
use crate::{ImageError, ImageResult, ImageSize};

verus! {

/// Inner codec of a HEIF container, identified from its brands.
#[derive(Clone, Copy, Debug, PartialEq, Eq, PartialOrd, Ord, Hash)]
pub enum Compression {
    Av1,
    Hevc,
    Jpeg,
    Unknown,
}

/// The HEVC-family brands.
pub open spec fn is_hevc_brand(b: Seq<u8>) -> bool {
    ||| bytes4_at(b, 0, 0x68, 0x65, 0x69, 0x63)  // heic
    ||| bytes4_at(b, 0, 0x68, 0x65, 0x69, 0x78)  // heix
    ||| bytes4_at(b, 0, 0x68, 0x65, 0x69, 0x73)  // heis
    ||| bytes4_at(b, 0, 0x68, 0x65, 0x76, 0x73)  // hevs
    ||| bytes4_at(b, 0, 0x68, 0x65, 0x69, 0x6d)  // heim
    ||| bytes4_at(b, 0, 0x68, 0x65, 0x76, 0x6d)  // hevm
    ||| bytes4_at(b, 0, 0x68, 0x65, 0x76, 0x63)  // hevc
    ||| bytes4_at(b, 0, 0x68, 0x65, 0x76, 0x78)  // hevx
}

/// The AV1-family brands.
pub open spec fn is_av1_brand(b: Seq<u8>) -> bool {
    ||| bytes4_at(b, 0, 0x61, 0x76, 0x69, 0x66)  // avif
    ||| bytes4_at(b, 0, 0x61, 0x76, 0x69, 0x6f)  // avio
    ||| bytes4_at(b, 0, 0x61, 0x76, 0x69, 0x73)  // avis
    ||| bytes4_at(b, 0, 0x4d, 0x41, 0x31, 0x41)  // MA1A
    ||| bytes4_at(b, 0, 0x4d, 0x41, 0x31, 0x42)  // MA1B
}

/// The JPEG-family brands.
pub open spec fn is_jpeg_brand(b: Seq<u8>) -> bool {
    ||| bytes4_at(b, 0, 0x6a, 0x70, 0x65, 0x67)  // jpeg
    ||| bytes4_at(b, 0, 0x6a, 0x70, 0x67, 0x73)  // jpgs
}

/// A codec brand maps to its compression; anything else to `None`.
pub open spec fn inner_matches_spec(b: Seq<u8>) -> Option<Compression> {
    if is_hevc_brand(b) {
        Some(Compression::Hevc)
    } else if is_av1_brand(b) {
        Some(Compression::Av1)
    } else if is_jpeg_brand(b) {
        Some(Compression::Jpeg)
    } else {
        None
    }
}

/// The structural brands that say nothing about the codec themselves.
pub open spec fn is_structural_brand(b: Seq<u8>) -> bool {
    ||| bytes4_at(b, 0, 0x6d, 0x69, 0x66, 0x31)  // mif1
    ||| bytes4_at(b, 0, 0x6d, 0x73, 0x66, 0x31)  // msf1
    ||| bytes4_at(b, 0, 0x6d, 0x69, 0x66, 0x32)  // mif2
    ||| bytes4_at(b, 0, 0x6d, 0x69, 0x61, 0x66)  // miaf
}

/// Relies on the brand list alone: a codec brand names the compression.
pub fn inner_matches(brand: &[u8; 4]) -> (r: Option<Compression>)
    ensures
        r == inner_matches_spec(brand@),
{
    let b0 = brand[0];
    let b1 = brand[1];
    let b2 = brand[2];
    let b3 = brand[3];
    if (b0 == 0x68 && b1 == 0x65 && b2 == 0x69 && b3 == 0x63) || (b0 == 0x68 && b1 == 0x65 && b2
        == 0x69 && b3 == 0x78) || (b0 == 0x68 && b1 == 0x65 && b2 == 0x69 && b3 == 0x73) || (b0
        == 0x68 && b1 == 0x65 && b2 == 0x76 && b3 == 0x73) || (b0 == 0x68 && b1 == 0x65 && b2
        == 0x69 && b3 == 0x6d) || (b0 == 0x68 && b1 == 0x65 && b2 == 0x76 && b3 == 0x6d) || (b0
        == 0x68 && b1 == 0x65 && b2 == 0x76 && b3 == 0x63) || (b0 == 0x68 && b1 == 0x65 && b2
        == 0x76 && b3 == 0x78) {
        Some(Compression::Hevc)
    } else if (b0 == 0x61 && b1 == 0x76 && b2 == 0x69 && b3 == 0x66) || (b0 == 0x61 && b1 == 0x76
        && b2 == 0x69 && b3 == 0x6f) || (b0 == 0x61 && b1 == 0x76 && b2 == 0x69 && b3 == 0x73) || (
    b0 == 0x4d && b1 == 0x41 && b2 == 0x31 && b3 == 0x41) || (b0 == 0x4d && b1 == 0x41 && b2 == 0x31
        && b3 == 0x42) {
        Some(Compression::Av1)
    } else if (b0 == 0x6a && b1 == 0x70 && b2 == 0x65 && b3 == 0x67) || (b0 == 0x6a && b1 == 0x70
        && b2 == 0x67 && b3 == 0x73) {
        Some(Compression::Jpeg)
    } else {
        None
    }
}

fn is_structural(brand: &[u8; 4]) -> (r: bool)
    ensures
        r == is_structural_brand(brand@),
{
    let b0 = brand[0];
    let b1 = brand[1];
    let b2 = brand[2];
    let b3 = brand[3];
    (b0 == 0x6d && b1 == 0x69 && b2 == 0x66 && b3 == 0x31) || (b0 == 0x6d && b1 == 0x73 && b2
        == 0x66 && b3 == 0x31) || (b0 == 0x6d && b1 == 0x69 && b2 == 0x66 && b3 == 0x32) || (b0
        == 0x6d && b1 == 0x69 && b2 == 0x61 && b3 == 0x66)
}

/// Sniffing a HEIF container: the `ftyp` box must follow the size word; the
/// major brand at offset 8 may name the codec directly.  A structural brand
/// defers to up to two compatible-brand slots (offsets 16 and 20), because
/// structural brands can nest one level deep.  A `ftyp` file whose brands
/// stay unrecognized is still a container, with `Unknown` codec.
pub open spec fn matches_heif_spec(d: Seq<u8>) -> Option<Compression> {
    if d.len() < 12 || !bytes4_at(d, 4, 0x66, 0x74, 0x79, 0x70) {
        None
    } else if inner_matches_spec(d.subrange(8, 12)) is Some {
        inner_matches_spec(d.subrange(8, 12))
    } else if is_structural_brand(d.subrange(8, 12)) {
        if d.len() < 24 {
            Some(Compression::Unknown)
        } else if inner_matches_spec(d.subrange(16, 20)) is Some {
            inner_matches_spec(d.subrange(16, 20))
        } else if is_structural_brand(d.subrange(16, 20)) && inner_matches_spec(
            d.subrange(20, 24),
        ) is Some {
            inner_matches_spec(d.subrange(20, 24))
        } else {
            Some(Compression::Unknown)
        }
    } else {
        Some(Compression::Unknown)
    }
}

pub fn matches(data: &[u8]) -> (r: Option<Compression>)
    ensures
        r == matches_heif_spec(data@),
{
    if data.len() < 12 || !(data[4] == 0x66 && data[5] == 0x74 && data[6] == 0x79 && data[7]
        == 0x70) {
        return None;
    }
    let brand = [data[8], data[9], data[10], data[11]];
    proof {
        assert(brand@ =~= data@.subrange(8, 12));
    }
    if let Some(compression) = inner_matches(&brand) {
        return Some(compression);
    }
    if is_structural(&brand) {
        if data.len() < 24 {
            return Some(Compression::Unknown);
        }
        let brand2 = [data[16], data[17], data[18], data[19]];
        proof {
            assert(brand2@ =~= data@.subrange(16, 20));
        }
        if let Some(compression) = inner_matches(&brand2) {
            return Some(compression);
        }
        if is_structural(&brand2) {
            let brand3 = [data[20], data[21], data[22], data[23]];
            proof {
                assert(brand3@ =~= data@.subrange(20, 24));
            }
            if let Some(compression) = inner_matches(&brand3) {
                return Some(compression);
            }
        }
    }
    Some(Compression::Unknown)
}

/// Walking boxes to the one named `tag`: read each `(size, tag)` header and
/// skip non-matching boxes by their declared size.  A declared size under
/// the 8-byte header length is a structural contradiction.
pub open spec fn skip_to_tag_spec(d: Seq<u8>, pos: int, tag: Seq<u8>) -> ImageResult<(u32, int)>
    decreases d.len() - pos,
{
    if pos + 8 > d.len() {
        Err(ImageError::IoError)
    } else {
        let size = be32(d, pos);
        if tag_at(d, pos) == tag {
            Ok((size as u32, pos + 8))
        } else if size >= 8 {
            if pos + size > d.len() {
                Err(ImageError::IoError)
            } else {
                skip_to_tag_spec(d, pos + size, tag)
            }
        } else {
            Err(ImageError::CorruptedImage)
        }
    }
}

/// Skip boxes until one carries `tag`; returns its declared size and the
/// offset just past its header.
pub fn skip_to_tag(data: &[u8], pos: usize, tag: &[u8; 4]) -> (r: ImageResult<(u32, usize)>)
    ensures
        (match skip_to_tag_spec(data@, pos as int, tag@) {
            Ok((size, newpos)) => {
                &&& r is Ok
                &&& r->Ok_0.0 == size
                &&& r->Ok_0.1 == newpos
                &&& 8 <= newpos <= data@.len()
            },
            Err(e) => r == Err::<(u32, usize), ImageError>(e),
        }),
{
    let mut p = pos;
    let mut result: ImageResult<(u32, usize)> = Err(ImageError::IoError);
    loop
        invariant_except_break
            skip_to_tag_spec(data@, p as int, tag@) == skip_to_tag_spec(data@, pos as int, tag@),
        ensures
            (match skip_to_tag_spec(data@, pos as int, tag@) {
                Ok((size, newpos)) => {
                    &&& result is Ok
                    &&& result->Ok_0.0 == size
                    &&& result->Ok_0.1 == newpos
                    &&& 8 <= newpos <= data@.len()
                },
                Err(e) => result == Err::<(u32, usize), ImageError>(e),
            }),
        decreases data@.len() - p,
    {
        if data.len() < 8 || p > data.len() - 8 {
            result = Err(ImageError::IoError);
            break;
        }
        let size = match read_u32(data, p, &Endian::Big) {
            Ok(v) => v,
            Err(e) => {
                result = Err(e);
                break;
            },
        };
        if data[p + 4] == tag[0] && data[p + 5] == tag[1] && data[p + 6] == tag[2] && data[p + 7]
            == tag[3] {
            proof {
                assert(tag_at(data@, p as int) =~= tag@);
            }
            result = Ok((size, p + 8));
            break;
        }
        proof {
            if tag_at(data@, p as int) == tag@ {
                assert(tag_at(data@, p as int)[0] == data@[p + 4]);
                assert(tag_at(data@, p as int)[1] == data@[p + 5]);
                assert(tag_at(data@, p as int)[2] == data@[p + 6]);
                assert(tag_at(data@, p as int)[3] == data@[p + 7]);
            }
        }
        if size < 8 {
            result = Err(ImageError::CorruptedImage);
            break;
        }
        if ((data.len() - p) as u64) < (size as u64) {
            result = Err(ImageError::IoError);
            break;
        }
        p = p + size as usize;
    }
    result
}

/// Whether a quarter-turn count transposes the frame: 1 and 3 are 90 and
/// 270 degrees.
pub open spec fn transposes(rot: u8) -> bool {
    rot == 1 || rot == 3
}

/// The answer once the `ipco` children have been walked: ending the walk
/// without any `ispe` means the mandatory dimension data is missing — a
/// structural contradiction; a transposing rotation swaps the axes.
pub open spec fn finalize_spec(max_w: int, max_h: int, found: bool, rot: u8) -> ImageResult<
    ImageSize,
> {
    if !found {
        Err(ImageError::CorruptedImage)
    } else if transposes(rot) {
        Ok(ImageSize { width: max_h as usize, height: max_w as usize })
    } else {
        Ok(ImageSize { width: max_w as usize, height: max_h as usize })
    }
}

/// One walk over the children of `ipco`, keeping the maximum-by-area `ispe`
/// extent and the last `irot` count.  A child whose declared size reaches
/// the remaining `ipco` budget ends the walk, as does running out of bytes;
/// a box size under 8 is a structural contradiction.
pub open spec fn ipco_scan_spec(
    d: Seq<u8>,
    pos: int,
    ipco_size: int,
    max_w: int,
    max_h: int,
    found: bool,
    rot: u8,
) -> ImageResult<ImageSize>
    decreases d.len() - pos,
{
    if pos + 8 > d.len() {
        finalize_spec(max_w, max_h, found, rot)
    } else {
        let size = be32(d, pos);
        if size < 8 {
            Err(ImageError::CorruptedImage)
        } else if bytes4_at(d, pos + 4, 0x69, 0x73, 0x70, 0x65) {  // ispe
            if pos + 20 > d.len() {
                Err(ImageError::IoError)
            } else {
                let w = be32(d, pos + 12);
                let h = be32(d, pos + 16);
                if w * h > max_w * max_h {
                    ipco_scan_spec(d, pos + 20, ipco_size, w, h, true, rot)
                } else {
                    ipco_scan_spec(d, pos + 20, ipco_size, max_w, max_h, true, rot)
                }
            }
        } else if bytes4_at(d, pos + 4, 0x69, 0x72, 0x6f, 0x74) {  // irot
            if pos + 9 > d.len() {
                Err(ImageError::IoError)
            } else {
                ipco_scan_spec(d, pos + 9, ipco_size, max_w, max_h, found, d[pos + 8])
            }
        } else if size >= ipco_size {
            finalize_spec(max_w, max_h, found, rot)
        } else if pos + size + 8 > d.len() {
            finalize_spec(max_w, max_h, found, rot)
        } else {
            ipco_scan_spec(d, pos + size, ipco_size - size, max_w, max_h, found, rot)
        }
    }
}

fn finalize(max_w: u32, max_h: u32, found: bool, rot: u8) -> (r: ImageResult<ImageSize>)
    ensures
        r == finalize_spec(max_w as int, max_h as int, found, rot),
{
    if !found {
        Err(ImageError::CorruptedImage)
    } else if rot == 1 || rot == 3 {
        Ok(ImageSize { width: max_h as usize, height: max_w as usize })
    } else {
        Ok(ImageSize { width: max_w as usize, height: max_h as usize })
    }
}

fn scan_ipco(data: &[u8], start: usize, ipco_size0: u32) -> (r: ImageResult<ImageSize>)
    ensures
        r == ipco_scan_spec(data@, start as int, ipco_size0 as int, 0, 0, false, 0),
{
    let ghost target = ipco_scan_spec(data@, start as int, ipco_size0 as int, 0, 0, false, 0);
    let mut pos = start;
    let mut ipco_size: u32 = ipco_size0;
    let mut max_w: u32 = 0;
    let mut max_h: u32 = 0;
    let mut found_ispe = false;
    let mut rotation: u8 = 0;
    let mut result: ImageResult<ImageSize> = Err(ImageError::IoError);
    let mut finished = false;
    loop
        invariant_except_break
            !finished,
            ipco_scan_spec(
                data@,
                pos as int,
                ipco_size as int,
                max_w as int,
                max_h as int,
                found_ispe,
                rotation,
            ) == target,
        ensures
            finished,
            result == target,
        decreases data@.len() - pos,
    {
        if data.len() < 8 || pos > data.len() - 8 {
            result = finalize(max_w, max_h, found_ispe, rotation);
            finished = true;
            break;
        }
        let (tag, size) = match read_tag(data, pos) {
            Ok(v) => v,
            Err(e) => {
                result = Err(e);
                finished = true;
                break;
            },
        };
        if size < 8 {
            result = Err(ImageError::CorruptedImage);
            finished = true;
            break;
        }
        if tag[0] == 0x69 && tag[1] == 0x73 && tag[2] == 0x70 && tag[3] == 0x65 {
            if data.len() - pos < 20 {
                result = Err(ImageError::IoError);
                finished = true;
                break;
            }
            let w = match read_u32(data, pos + 12, &Endian::Big) {
                Ok(v) => v,
                Err(e) => {
                    result = Err(e);
                    finished = true;
                    break;
                },
            };
            let h = match read_u32(data, pos + 16, &Endian::Big) {
                Ok(v) => v,
                Err(e) => {
                    result = Err(e);
                    finished = true;
                    break;
                },
            };
            proof {
                assert((w as int) * (h as int) < 0x1_0000_0000_0000_0000 && (max_w as int) * (
                max_h as int) < 0x1_0000_0000_0000_0000) by (nonlinear_arith)
                    requires
                        w < 0x1_0000_0000,
                        h < 0x1_0000_0000,
                        max_w < 0x1_0000_0000,
                        max_h < 0x1_0000_0000,
                ;
            }
            if (w as u64) * (h as u64) > (max_w as u64) * (max_h as u64) {
                max_w = w;
                max_h = h;
            }
            found_ispe = true;
            pos = pos + 20;
        } else if tag[0] == 0x69 && tag[1] == 0x72 && tag[2] == 0x6f && tag[3] == 0x74 {
            if data.len() - pos < 9 {
                result = Err(ImageError::IoError);
                finished = true;
                break;
            }
            rotation = data[pos + 8];
            pos = pos + 9;
        } else if size >= ipco_size {
            result = finalize(max_w, max_h, found_ispe, rotation);
            finished = true;
            break;
        } else if ((data.len() - pos) as u64) < (size as u64) + 8 {
            result = finalize(max_w, max_h, found_ispe, rotation);
            finished = true;
            break;
        } else {
            ipco_size = ipco_size - size;
            pos = pos + size as usize;
        }
    }
    result
}

/// Law: a rotation of 1 or 3 quarter turns transposes the reported frame;
/// 0 or 2 quarter turns leave it unchanged.
pub proof fn lemma_heif_rotation(max_w: u32, max_h: u32, rot: u8)
    ensures
        transposes(rot) ==> finalize_spec(max_w as int, max_h as int, true, rot) == Ok::<
            ImageSize,
            ImageError,
        >((ImageSize { width: max_h as usize, height: max_w as usize })),
        !transposes(rot) ==> finalize_spec(max_w as int, max_h as int, true, rot) == Ok::<
            ImageSize,
            ImageError,
        >((ImageSize { width: max_w as usize, height: max_h as usize })),
{
}

/// The `ipco` walk never reports an area below its running maximum.
proof fn lemma_ipco_scan_ge_best(
    d: Seq<u8>,
    pos: int,
    ipco_size: int,
    max_w: int,
    max_h: int,
    rot: u8,
)
    requires
        ipco_scan_spec(d, pos, ipco_size, max_w, max_h, true, rot) is Ok,
        0 <= max_w < 0x1_0000_0000,
        0 <= max_h < 0x1_0000_0000,
    ensures
        ipco_scan_spec(d, pos, ipco_size, max_w, max_h, true, rot)->Ok_0.width * ipco_scan_spec(
            d,
            pos,
            ipco_size,
            max_w,
            max_h,
            true,
            rot,
        )->Ok_0.height >= max_w * max_h,
    decreases d.len() - pos,
{
    assert(max_w as usize as int == max_w);
    assert(max_h as usize as int == max_h);
    let res = ipco_scan_spec(d, pos, ipco_size, max_w, max_h, true, rot);
    if pos + 8 > d.len() {
        assert(res == finalize_spec(max_w, max_h, true, rot));
        if transposes(rot) {
            assert(res->Ok_0.width == max_h as usize);
            assert(res->Ok_0.height == max_w as usize);
            assert((max_h as usize) * (max_w as usize) >= max_w * max_h) by (nonlinear_arith)
                requires
                    (max_h as usize) as int == max_h,
                    (max_w as usize) as int == max_w,
            ;
        } else {
            assert((max_w as usize) * (max_h as usize) >= max_w * max_h) by (nonlinear_arith)
                requires
                    (max_h as usize) as int == max_h,
                    (max_w as usize) as int == max_w,
            ;
        }
        assert(res->Ok_0.width * res->Ok_0.height >= max_w * max_h);
    } else {
        let size = be32(d, pos);
        if size < 8 {
        } else if bytes4_at(d, pos + 4, 0x69, 0x73, 0x70, 0x65) {
            if pos + 20 <= d.len() {
                let w = be32(d, pos + 12);
                let h = be32(d, pos + 16);
                if w * h > max_w * max_h {
                    lemma_ipco_scan_ge_best(d, pos + 20, ipco_size, w, h, rot);
                } else {
                    lemma_ipco_scan_ge_best(d, pos + 20, ipco_size, max_w, max_h, rot);
                }
            }
        } else if bytes4_at(d, pos + 4, 0x69, 0x72, 0x6f, 0x74) {
            if pos + 9 <= d.len() {
                lemma_ipco_scan_ge_best(d, pos + 9, ipco_size, max_w, max_h, d[pos + 8]);
            }
        } else if size >= ipco_size {
        } else if pos + size + 8 > d.len() {
        } else {
            lemma_ipco_scan_ge_best(d, pos + size, ipco_size - size, max_w, max_h, rot);
        }
    }
}

/// Law: when the walk stands at an `ispe` box holding extent (w, h) and
/// succeeds, the reported size has at least the area w * h — the walk keeps
/// the maximum-by-area extent over all `ispe` boxes it visits.
pub proof fn lemma_heif_keeps_largest_area(
    d: Seq<u8>,
    pos: int,
    ipco_size: int,
    max_w: int,
    max_h: int,
    found: bool,
    rot: u8,
)
    requires
        ipco_scan_spec(d, pos, ipco_size, max_w, max_h, found, rot) is Ok,
        0 <= max_w < 0x1_0000_0000,
        0 <= max_h < 0x1_0000_0000,
        pos + 20 <= d.len(),
        be32(d, pos) >= 8,
        bytes4_at(d, pos + 4, 0x69, 0x73, 0x70, 0x65),
    ensures
        ipco_scan_spec(d, pos, ipco_size, max_w, max_h, found, rot)->Ok_0.width * ipco_scan_spec(
            d,
            pos,
            ipco_size,
            max_w,
            max_h,
            found,
            rot,
        )->Ok_0.height >= be32(d, pos + 12) * be32(d, pos + 16),
{
    let w = be32(d, pos + 12);
    let h = be32(d, pos + 16);
    if w * h > max_w * max_h {
        lemma_ipco_scan_ge_best(d, pos + 20, ipco_size, w, h, rot);
    } else {
        lemma_ipco_scan_ge_best(d, pos + 20, ipco_size, max_w, max_h, rot);
    }
}

/// The whole parse: jump past `ftyp` by its declared size, walk boxes to
/// `meta` (whose version word is skipped), then to `iprp`, then to `ipco`,
/// and scan the `ipco` children for extents and rotation.
pub open spec fn size_spec(d: Seq<u8>) -> ImageResult<ImageSize> {
    if d.len() < 4 {
        Err(ImageError::IoError)
    } else {
        let ftyp_size = be32(d, 0);
        match skip_to_tag_spec(d, ftyp_size, seq![0x6du8, 0x65u8, 0x74u8, 0x61u8]) {
            Err(e) => Err(e),
            Ok((_meta_size, p1)) => {
                if p1 + 4 > d.len() {
                    Err(ImageError::IoError)
                } else {
                    match skip_to_tag_spec(d, p1 + 4, seq![0x69u8, 0x70u8, 0x72u8, 0x70u8]) {
                        Err(e) => Err(e),
                        Ok((_iprp_size, p2)) => {
                            match skip_to_tag_spec(d, p2, seq![0x69u8, 0x70u8, 0x63u8, 0x6fu8]) {
                                Err(e) => Err(e),
                                Ok((ipco_size, p3)) => {
                                    ipco_scan_spec(d, p3, ipco_size as int, 0, 0, false, 0)
                                },
                            }
                        },
                    }
                }
            },
        }
    }
}

pub fn size(data: &[u8]) -> (r: ImageResult<ImageSize>)
    ensures
        r == size_spec(data@),
{
    let ftyp_size = read_u32(data, 0, &Endian::Big)?;
    let meta_tag: [u8; 4] = [0x6d, 0x65, 0x74, 0x61];
    let iprp_tag: [u8; 4] = [0x69, 0x70, 0x72, 0x70];
    let ipco_tag: [u8; 4] = [0x69, 0x70, 0x63, 0x6f];
    proof {
        assert(meta_tag@ =~= seq![0x6du8, 0x65u8, 0x74u8, 0x61u8]);
        assert(iprp_tag@ =~= seq![0x69u8, 0x70u8, 0x72u8, 0x70u8]);
        assert(ipco_tag@ =~= seq![0x69u8, 0x70u8, 0x63u8, 0x6fu8]);
    }
    let (_meta_size, p1) = skip_to_tag(data, ftyp_size as usize, &meta_tag)?;
    let _version = read_u32(data, p1, &Endian::Big)?;
    if data.len() < 4 || p1 > data.len() - 4 {
        return Err(ImageError::IoError);
    }
    let (_iprp_size, p2) = skip_to_tag(data, p1 + 4, &iprp_tag)?;
    let (ipco_size, p3) = skip_to_tag(data, p2, &ipco_tag)?;
    scan_ipco(data, p3, ipco_size)
}

} // verus!
