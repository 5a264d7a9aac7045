//! One module per supported image or texture format.  Each module exposes a
//! cheap magic-number test `matches` over the sniffing window and a `size`
//! parser that walks that format's header layout.

pub mod aesprite;
pub mod astc;
pub mod bmp;
pub mod dds;
pub mod eac;
pub mod etc2;
pub mod exr;
pub mod farbfeld;
pub mod gif;
pub mod hdr;
pub mod ico;
pub mod ilbm;
pub mod jpeg;
pub mod jxl;
pub mod ktx2;
pub mod png;
pub mod pnm;
pub mod psd;
pub mod pvrtc;
pub mod qoi;
pub mod tga;
pub mod tiff;
pub mod vtf;
pub mod webp;

use vstd::prelude::*;

use crate::container;
use crate::{ImageError, ImageResult, ImageType};

verus! {

/// The dispatcher: the first 12 bytes form the sniffing window, and each
/// format's `matches` is tried in a fixed priority order.  The order
/// matters because some predicates are deliberately loose: the common
/// formats come first, HEIF brand-sniffing before JPEG XL, EAC before the
/// generic PKM match (same magic, told apart only by the data type), and
/// TGA last of all since its heuristic has no fixed signature.  Container
/// formats resolve their inner codec eagerly, falling back to the unknown
/// codec when the extra read fails.
pub open spec fn image_type_spec(d: Seq<u8>) -> ImageResult<ImageType> {
    if d.len() < 12 {
        Err(ImageError::IoError)
    } else {
        let h = d.take(12);
        if jpeg::matches_spec(h) {
            Ok(ImageType::Jpeg)
        } else if png::matches_spec(h) {
            Ok(ImageType::Png)
        } else if gif::matches_spec(h) {
            Ok(ImageType::Gif)
        } else if tiff::matches_spec(h) {
            Ok(ImageType::Tiff)
        } else if webp::matches_spec(h) {
            Ok(ImageType::Webp)
        } else if container::heif::matches_heif_spec(d) is Some {
            Ok(ImageType::Heif(container::heif::matches_heif_spec(d)->Some_0))
        } else if jxl::matches_spec(h) {
            Ok(ImageType::Jxl)
        } else if bmp::matches_spec(h) {
            Ok(ImageType::Bmp)
        } else if psd::matches_spec(h) {
            Ok(ImageType::Psd)
        } else if ico::matches_spec(h) {
            Ok(ImageType::Ico)
        } else if aesprite::matches_spec(h) {
            Ok(ImageType::Aseprite)
        } else if astc::matches_spec(h) {
            Ok(ImageType::Astc)
        } else if container::atc::matches_spec(h) {
            Ok(
                ImageType::Atc(
                    match container::atc::detect_compression_spec(d) {
                        Ok(c) => c,
                        Err(_) => container::atc::AtcCompression::Unknown,
                    },
                ),
            )
        } else if container::pvrtc::matches_spec(h) {
            Ok(
                ImageType::Pvrtc(
                    match container::pvrtc::detect_compression_spec(d) {
                        Ok(c) => c,
                        Err(_) => container::pvrtc::PvrtcCompression::Unknown,
                    },
                ),
            )
        } else if container::pkm::matches_eac_spec(h) {
            Ok(
                ImageType::Eac(
                    match container::pkm::detect_compression_spec(d) {
                        Ok(c) => c,
                        Err(_) => container::pkm::PkmCompression::Unknown,
                    },
                ),
            )
        } else if container::pkm::matches_spec(h) {
            Ok(
                ImageType::Etc2(
                    match container::pkm::detect_compression_spec(d) {
                        Ok(c) => c,
                        Err(_) => container::pkm::PkmCompression::Unknown,
                    },
                ),
            )
        } else if exr::matches_spec(h) {
            Ok(ImageType::Exr)
        } else if hdr::matches_spec(h) {
            Ok(ImageType::Hdr)
        } else if container::dds::matches_spec(h) {
            Ok(
                ImageType::Dds(
                    match container::dds::detect_compression_spec(d) {
                        Ok(c) => c,
                        Err(_) => container::dds::DdsCompression::Unknown,
                    },
                ),
            )
        } else if ktx2::matches_spec(h) {
            Ok(ImageType::Ktx2)
        } else if qoi::matches_spec(h) {
            Ok(ImageType::Qoi)
        } else if farbfeld::matches_spec(h) {
            Ok(ImageType::Farbfeld)
        } else if pnm::matches_spec(h) {
            Ok(ImageType::Pnm)
        } else if vtf::matches_spec(h) {
            Ok(ImageType::Vtf)
        } else if ilbm::matches_spec(h) {
            Ok(ImageType::Ilbm)
        } else if tga::matches_spec(h) {
            Ok(ImageType::Tga)
        } else {
            Err(ImageError::NotSupported)
        }
    }
}

/// Classify a byte buffer by trying each format's `matches` in the fixed
/// priority order.
pub fn image_type(data: &[u8]) -> (r: ImageResult<ImageType>)
    ensures
        r == image_type_spec(data@),
{
    if data.len() < 12 {
        return Err(ImageError::IoError);
    }
    let header = vstd::slice::slice_subrange(data, 0, 12);
    proof {
        assert(header@ =~= data@.take(12));
    }
    if jpeg::matches(header) {
        return Ok(ImageType::Jpeg);
    }
    if png::matches(header) {
        return Ok(ImageType::Png);
    }
    if gif::matches(header) {
        return Ok(ImageType::Gif);
    }
    if tiff::matches(header) {
        return Ok(ImageType::Tiff);
    }
    if webp::matches(header) {
        return Ok(ImageType::Webp);
    }
    if let Some(c) = container::heif::matches(data) {
        return Ok(ImageType::Heif(c));
    }
    if jxl::matches(header) {
        return Ok(ImageType::Jxl);
    }
    if bmp::matches(header) {
        return Ok(ImageType::Bmp);
    }
    if psd::matches(header) {
        return Ok(ImageType::Psd);
    }
    if ico::matches(header) {
        return Ok(ImageType::Ico);
    }
    if aesprite::matches(header) {
        return Ok(ImageType::Aseprite);
    }
    if astc::matches(header) {
        return Ok(ImageType::Astc);
    }
    if container::atc::matches(header) {
        let compression = match container::atc::detect_compression(data) {
            Ok(c) => c,
            Err(_) => container::atc::AtcCompression::Unknown,
        };
        return Ok(ImageType::Atc(compression));
    }
    if container::pvrtc::matches(header) {
        let compression = match container::pvrtc::detect_compression(data) {
            Ok(c) => c,
            Err(_) => container::pvrtc::PvrtcCompression::Unknown,
        };
        return Ok(ImageType::Pvrtc(compression));
    }
    if container::pkm::matches_eac(header) {
        let compression = match container::pkm::detect_compression(data) {
            Ok(c) => c,
            Err(_) => container::pkm::PkmCompression::Unknown,
        };
        return Ok(ImageType::Eac(compression));
    }
    if container::pkm::matches(header) {
        let compression = match container::pkm::detect_compression(data) {
            Ok(c) => c,
            Err(_) => container::pkm::PkmCompression::Unknown,
        };
        return Ok(ImageType::Etc2(compression));
    }
    if exr::matches(header) {
        return Ok(ImageType::Exr);
    }
    if hdr::matches(header) {
        return Ok(ImageType::Hdr);
    }
    if container::dds::matches(header) {
        let compression = match container::dds::detect_compression(data) {
            Ok(c) => c,
            Err(_) => container::dds::DdsCompression::Unknown,
        };
        return Ok(ImageType::Dds(compression));
    }
    if ktx2::matches(header) {
        return Ok(ImageType::Ktx2);
    }
    if qoi::matches(header) {
        return Ok(ImageType::Qoi);
    }
    if farbfeld::matches(header) {
        return Ok(ImageType::Farbfeld);
    }
    if pnm::matches(header) {
        return Ok(ImageType::Pnm);
    }
    if vtf::matches(header) {
        return Ok(ImageType::Vtf);
    }
    if ilbm::matches(header) {
        return Ok(ImageType::Ilbm);
    }
    if tga::matches(header) {
        return Ok(ImageType::Tga);
    }
    Err(ImageError::NotSupported)
}

} // verus!
