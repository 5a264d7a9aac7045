//! JPEG: scan marker by marker from offset 2.  A nesting depth follows
//! embedded streams — start-of-image markers push, end-of-image markers
//! pop — so a start-of-frame marker is only authoritative at depth 0 and
//! embedded thumbnails are skipped.  Every other marker's declared length
//! skips its payload in one jump.

use vstd::prelude::*;

use crate::util::{be16, read_u16, Endian};
use crate::{ImageError, ImageResult, ImageSize};

verus! {

/// The dimension-bearing start-of-frame markers; 0xC4, 0xC8 and 0xCC are
/// reserved for other purposes and carry no dimensions.
pub open spec fn is_sof_marker(m: u8) -> bool {
    (0xc0 <= m <= 0xc3) || (0xc5 <= m <= 0xc7) || (0xc9 <= m <= 0xcb) || (0xcd <= m <= 0xcf)
}

/// One marker step: a byte other than 0xFF where a marker is due, or a
/// depth underflow, or a segment length under 2, is a structural
/// contradiction.  A start-of-frame at depth 0 yields height and width
/// (big-endian 16-bit, after the length and precision bytes); everything
/// else adjusts the depth and skips by the declared segment length.
pub open spec fn marker_scan_spec(d: Seq<u8>, pos: int, depth: int) -> ImageResult<ImageSize>
    decreases d.len() - pos,
{
    if pos + 2 > d.len() {
        Err(ImageError::IoError)
    } else if d[pos] != 0xff {
        Err(ImageError::CorruptedImage)
    } else {
        let page = d[pos + 1];
        if is_sof_marker(page) && depth == 0 {
            if pos + 9 > d.len() {
                Err(ImageError::IoError)
            } else {
                Ok(
                    ImageSize {
                        width: be16(d, pos + 7) as usize,
                        height: be16(d, pos + 5) as usize,
                    },
                )
            }
        } else {
            let depth2 = if page == 0xd8 {
                depth + 1
            } else if page == 0xd9 {
                depth - 1
            } else {
                depth
            };
            if depth2 < 0 {
                Err(ImageError::CorruptedImage)
            } else if pos + 4 > d.len() {
                Err(ImageError::IoError)
            } else {
                let page_size = be16(d, pos + 2);
                if page_size < 2 {
                    Err(ImageError::CorruptedImage)
                } else if pos + 2 + page_size > d.len() {
                    Err(ImageError::IoError)
                } else {
                    marker_scan_spec(d, pos + 2 + page_size, depth2)
                }
            }
        }
    }
}

/// Law: a start-of-frame marker met inside an embedded stream (depth
/// above 0) is not authoritative — the scan walks past it by its declared
/// segment length like any other marker, so a thumbnail's dimensions are
/// never reported for the outer image.
pub proof fn lemma_nested_sof_skipped(d: Seq<u8>, pos: int, depth: int)
    requires
        depth > 0,
        pos + 4 <= d.len(),
        d[pos] == 0xff,
        is_sof_marker(d[pos + 1]),
        be16(d, pos + 2) >= 2,
        pos + 2 + be16(d, pos + 2) <= d.len(),
    ensures
        marker_scan_spec(d, pos, depth) == marker_scan_spec(d, pos + 2 + be16(d, pos + 2), depth),
{
}

/// The scan starts just past the start-of-image marker.
pub open spec fn size_spec(d: Seq<u8>) -> ImageResult<ImageSize> {
    marker_scan_spec(d, 2, 0)
}

pub fn size(data: &[u8]) -> (r: ImageResult<ImageSize>)
    ensures
        r == size_spec(data@),
{
    let ghost target = marker_scan_spec(data@, 2, 0);
    let mut pos: usize = 2;
    let mut depth: i64 = 0;
    let mut result: ImageResult<ImageSize> = Err(ImageError::IoError);
    loop
        invariant_except_break
            2 <= pos,
            0 <= depth,
            4 * depth <= pos,
            marker_scan_spec(data@, pos as int, depth as int) == target,
        ensures
            result == target,
        decreases data@.len() - pos,
    {
        if data.len() < 2 || pos > data.len() - 2 {
            result = Err(ImageError::IoError);
            break;
        }
        if data[pos] != 0xff {
            result = Err(ImageError::CorruptedImage);
            break;
        }
        let page = data[pos + 1];
        let is_sof = (0xc0 <= page && page <= 0xc3) || (0xc5 <= page && page <= 0xc7) || (0xc9
            <= page && page <= 0xcb) || (0xcd <= page && page <= 0xcf);
        if is_sof && depth == 0 {
            if data.len() - pos < 9 {
                result = Err(ImageError::IoError);
                break;
            }
            let height = match read_u16(data, pos + 5, &Endian::Big) {
                Ok(v) => v,
                Err(e) => {
                    result = Err(e);
                    break;
                },
            };
            let width = match read_u16(data, pos + 7, &Endian::Big) {
                Ok(v) => v,
                Err(e) => {
                    result = Err(e);
                    break;
                },
            };
            result = Ok(ImageSize { width: width as usize, height: height as usize });
            break;
        }
        if page == 0xd8 {
            depth = depth + 1;
        } else if page == 0xd9 {
            depth = depth - 1;
            if depth < 0 {
                result = Err(ImageError::CorruptedImage);
                break;
            }
        }
        if data.len() - pos < 4 {
            result = Err(ImageError::IoError);
            break;
        }
        let page_size = match read_u16(data, pos + 2, &Endian::Big) {
            Ok(v) => v,
            Err(e) => {
                result = Err(e);
                break;
            },
        };
        if page_size < 2 {
            result = Err(ImageError::CorruptedImage);
            break;
        }
        if ((data.len() - pos) as u64) < 2 + (page_size as u64) {
            result = Err(ImageError::IoError);
            break;
        }
        pos = pos + 2 + page_size as usize;
    }
    result
}

/// A start-of-image marker followed by another marker byte.
pub open spec fn matches_spec(h: Seq<u8>) -> bool {
    h.len() >= 3 && h[0] == 0xff && h[1] == 0xd8 && h[2] == 0xff
}

pub fn matches(header: &[u8]) -> (r: bool)
    ensures
        r == matches_spec(header@),
{
    header.len() >= 3 && header[0] == 0xff && header[1] == 0xd8 && header[2] == 0xff
}

} // verus!
