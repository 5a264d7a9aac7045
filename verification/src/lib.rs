//! Determine the pixel dimensions of an image by inspecting only its header
//! bytes, never decoding pixel data.
//!
//! The library classifies a byte buffer into one of the supported image and
//! texture container formats with cheap magic-number tests, then walks that
//! format's binary header layout to extract width and height (and, for some
//! container formats, the inner compression algorithm).  Every parser is
//! total: on truncated or malformed input it returns a typed error, never
//! panics and never loops forever.

use vstd::prelude::*;

pub mod container;
pub mod formats;
pub mod util;

pub use container::atc::AtcCompression;
pub use container::dds::DdsCompression;
pub use container::heif::Compression;
pub use container::pkm::PkmCompression;
pub use container::pvrtc::PvrtcCompression;

verus! {

/// An error type used in failure cases.
#[derive(Clone, Copy, Debug, PartialEq, Eq, Hash)]
pub enum ImageError {
    /// The given data is not a supported format.
    NotSupported,
    /// The header matched a format, but its internal structure violates that
    /// format's own invariants.
    CorruptedImage,
    /// The data ended (or a capped read ran out) before a required field
    /// could be read.
    IoError,
}

pub type ImageResult<T> = Result<T, ImageError>;

impl ImageError {
    /// A short human-readable description of the failure.
    pub fn message(&self) -> (r: &'static str)
        ensures
            *self == ImageError::NotSupported ==> r == "Could not decode image",
            *self == ImageError::CorruptedImage ==> r == "Hit end of file before finding size",
            *self == ImageError::IoError ==> r == "Not enough data",
    {
        match self {
            ImageError::NotSupported => "Could not decode image",
            ImageError::CorruptedImage => "Hit end of file before finding size",
            ImageError::IoError => "Not enough data",
        }
    }
}

/// Holds the size information of an image.
#[derive(Clone, Copy, Debug, PartialEq, Eq, Hash)]
pub struct ImageSize {
    /// Width of an image in pixels.
    pub width: usize,
    /// Height of an image in pixels.
    pub height: usize,
}

/// Sizes order by pixel area, not lexicographically, so that picking the
/// largest of several embedded images is well defined.
pub open spec fn area_of(s: ImageSize) -> int {
    s.width * s.height
}

impl PartialOrd for ImageSize {
    fn partial_cmp(&self, other: &Self) -> (r: Option<core::cmp::Ordering>) {
        proof {
            assert((self.width as u128) * (self.height as u128) < 0x1_0000_0000_0000_0000_0000_0000_0000_0000)
                by (nonlinear_arith)
                requires
                    self.width <= 0xffff_ffff_ffff_ffff,
                    self.height <= 0xffff_ffff_ffff_ffff,
            ;
            assert((other.width as u128) * (other.height as u128) < 0x1_0000_0000_0000_0000_0000_0000_0000_0000)
                by (nonlinear_arith)
                requires
                    other.width <= 0xffff_ffff_ffff_ffff,
                    other.height <= 0xffff_ffff_ffff_ffff,
            ;
        }
        let a = (self.width as u128) * (self.height as u128);
        let b = (other.width as u128) * (other.height as u128);
        if a < b {
            Some(core::cmp::Ordering::Less)
        } else if a == b {
            Some(core::cmp::Ordering::Equal)
        } else {
            Some(core::cmp::Ordering::Greater)
        }
    }
}

impl vstd::std_specs::cmp::PartialOrdSpecImpl for ImageSize {
    open spec fn obeys_partial_cmp_spec() -> bool {
        true
    }

    open spec fn partial_cmp_spec(&self, other: &Self) -> Option<core::cmp::Ordering> {
        if area_of(*self) < area_of(*other) {
            Some(core::cmp::Ordering::Less)
        } else if area_of(*self) == area_of(*other) {
            Some(core::cmp::Ordering::Equal)
        } else {
            Some(core::cmp::Ordering::Greater)
        }
    }
}

/// Groups related compression algorithms regardless of their container
/// format.
#[derive(Clone, Copy, Debug, PartialEq, Eq, PartialOrd, Ord, Hash)]
pub enum CompressionFamily {
    /// Block Compression family (BC1-7, also known as DXT1-5, ATI1-2)
    BlockCompression,
    /// Ericsson Texture Compression family (ETC1, ETC2 variants)
    Etc,
    /// Ericsson Alpha Compression (EAC R11, RG11)
    Eac,
    /// PowerVR Texture Compression
    Pvrtc,
    /// Adaptive Scalable Texture Compression
    Astc,
    /// Adaptive Texture Compression (Qualcomm Adreno)
    Atc,
    /// Uncompressed formats
    Uncompressed,
}

/// Types of image formats that this crate can identify.
///
/// Several container formats multiplex inner compression formats; those
/// variants carry the inner compression tag, with an `Unknown` fallback —
/// failing to identify the inner codec is a loss of detail, not an error.
#[derive(Clone, Copy, Debug, PartialEq, Eq, PartialOrd, Ord, Hash)]
pub enum ImageType {
    /// Animated sprite image format
    Aseprite,
    /// Adaptive Scalable Texture Compression
    Astc,
    /// Adaptive Texture Compression
    Atc(AtcCompression),
    /// Standard Bitmap
    Bmp,
    /// DirectDraw Surface
    Dds(DdsCompression),
    /// Ericsson Texture Compression - Alpha Channel (unified with ETC2)
    Eac(PkmCompression),
    /// Ericsson Texture Compression 2 (includes ETC1, ETC2 variants)
    Etc2(PkmCompression),
    /// OpenEXR
    Exr,
    /// Farbfeld
    Farbfeld,
    /// Standard GIF
    Gif,
    /// Radiance HDR
    Hdr,
    /// Image Container Format
    Heif(Compression),
    /// Icon file
    Ico,
    /// Interleaved Bitmap
    Ilbm,
    /// Standard JPEG
    Jpeg,
    /// JPEG XL
    Jxl,
    /// Khronos Texture Container
    Ktx2,
    /// Standard PNG
    Png,
    /// Portable Any Map
    Pnm,
    /// PowerVR Texture Compression
    Pvrtc(PvrtcCompression),
    /// Photoshop Document
    Psd,
    /// Quite OK Image Format
    Qoi,
    /// Truevision Graphics Adapter
    Tga,
    /// Standard TIFF
    Tiff,
    /// Valve Texture Format
    Vtf,
    /// Standard Webp
    Webp,
}

/// The compression family of a format-and-codec pair: a convenience
/// projection, derived and never independently stored.
pub open spec fn compression_family_spec(t: ImageType) -> Option<CompressionFamily> {
    match t {
        ImageType::Dds(c) => match c {
            DdsCompression::Bc1
            | DdsCompression::Bc2
            | DdsCompression::Bc3
            | DdsCompression::Bc4
            | DdsCompression::Bc5
            | DdsCompression::Bc6h
            | DdsCompression::Bc7 => Some(CompressionFamily::BlockCompression),
            DdsCompression::Rgba32 | DdsCompression::Rgb24 => Some(
                CompressionFamily::Uncompressed,
            ),
            DdsCompression::Unknown => None,
        },
        ImageType::Etc2(c) | ImageType::Eac(c) => match c {
            PkmCompression::Etc1
            | PkmCompression::Etc2
            | PkmCompression::Etc2A1
            | PkmCompression::Etc2A8 => Some(CompressionFamily::Etc),
            PkmCompression::EacR
            | PkmCompression::EacRg
            | PkmCompression::EacRSigned
            | PkmCompression::EacRgSigned => Some(CompressionFamily::Eac),
            PkmCompression::Unknown => None,
        },
        ImageType::Pvrtc(c) => match c {
            PvrtcCompression::Pvrtc2BppRgb
            | PvrtcCompression::Pvrtc2BppRgba
            | PvrtcCompression::Pvrtc4BppRgb
            | PvrtcCompression::Pvrtc4BppRgba => Some(CompressionFamily::Pvrtc),
            PvrtcCompression::Etc2Rgb | PvrtcCompression::Etc2Rgba | PvrtcCompression::Etc2RgbA1
                => Some(CompressionFamily::Etc),
            PvrtcCompression::EacR11 | PvrtcCompression::EacRg11 => Some(CompressionFamily::Eac),
            PvrtcCompression::Unknown => None,
        },
        ImageType::Atc(_) => Some(CompressionFamily::Atc),
        ImageType::Astc => Some(CompressionFamily::Astc),
        _ => None,
    }
}

/// Whether a format-and-codec pair can name a container at all; the
/// container names themselves stand in `container_format`'s contract.
pub open spec fn has_container_format(t: ImageType) -> bool {
    match t {
        ImageType::Dds(_) => true,
        ImageType::Etc2(_) => true,
        ImageType::Eac(_) => true,
        ImageType::Pvrtc(_) => true,
        ImageType::Atc(_) => true,
        ImageType::Astc => true,
        ImageType::Heif(_) => true,
        ImageType::Ktx2 => true,
        _ => false,
    }
}

/// Whether the container can hold more than one compression algorithm.
pub open spec fn multi_compression_spec(t: ImageType) -> bool {
    match t {
        ImageType::Dds(_) => true,
        ImageType::Pvrtc(_) => true,
        ImageType::Ktx2 => true,
        _ => false,
    }
}

/// What each format's `size` parser yields on the given bytes.
pub open spec fn size_by_type_spec(t: ImageType, d: Seq<u8>) -> ImageResult<ImageSize> {
    match t {
        ImageType::Aseprite => formats::aesprite::size_spec(d),
        ImageType::Astc => formats::astc::size_spec(d),
        ImageType::Atc(_) => container::atc::size_spec(d),
        ImageType::Bmp => formats::bmp::size_spec(d),
        ImageType::Dds(_) => container::dds::size_spec(d),
        ImageType::Eac(_) => container::pkm::size_spec(d),
        ImageType::Etc2(_) => container::pkm::size_spec(d),
        ImageType::Exr => formats::exr::size_spec(d),
        ImageType::Farbfeld => formats::farbfeld::size_spec(d),
        ImageType::Gif => formats::gif::size_spec(d),
        ImageType::Hdr => formats::hdr::size_spec(d),
        ImageType::Heif(_) => container::heif::size_spec(d),
        ImageType::Ico => formats::ico::size_spec(d),
        ImageType::Ilbm => formats::ilbm::size_spec(d),
        ImageType::Jpeg => formats::jpeg::size_spec(d),
        ImageType::Jxl => formats::jxl::size_spec(d),
        ImageType::Ktx2 => formats::ktx2::size_spec(d),
        ImageType::Png => formats::png::size_spec(d),
        ImageType::Pnm => formats::pnm::size_spec(d),
        ImageType::Pvrtc(_) => container::pvrtc::size_spec(d),
        ImageType::Psd => formats::psd::size_spec(d),
        ImageType::Qoi => formats::qoi::size_spec(d),
        ImageType::Tga => formats::tga::size_spec(d),
        ImageType::Tiff => formats::tiff::size_spec(d),
        ImageType::Vtf => formats::vtf::size_spec(d),
        ImageType::Webp => formats::webp::size_spec(d),
    }
}

/// The whole pipeline: classify the buffer, then run that format's parser
/// over the same bytes.
pub open spec fn blob_size_spec(d: Seq<u8>) -> ImageResult<ImageSize> {
    match formats::image_type_spec(d) {
        Ok(t) => size_by_type_spec(t, d),
        Err(e) => Err(e),
    }
}

impl ImageType {
    /// The compression family of a texture format; simple image formats
    /// have none.
    pub fn compression_family(&self) -> (r: Option<CompressionFamily>)
        ensures
            r == compression_family_spec(*self),
    {
        match self {
            ImageType::Dds(compression) => match compression {
                DdsCompression::Bc1 | DdsCompression::Bc2 | DdsCompression::Bc3
                | DdsCompression::Bc4 | DdsCompression::Bc5 | DdsCompression::Bc6h
                | DdsCompression::Bc7 => Some(CompressionFamily::BlockCompression),
                DdsCompression::Rgba32 | DdsCompression::Rgb24 => Some(
                    CompressionFamily::Uncompressed,
                ),
                DdsCompression::Unknown => None,
            },
            ImageType::Etc2(compression) | ImageType::Eac(compression) => match compression {
                PkmCompression::Etc1 | PkmCompression::Etc2 | PkmCompression::Etc2A1
                | PkmCompression::Etc2A8 => Some(CompressionFamily::Etc),
                PkmCompression::EacR | PkmCompression::EacRg | PkmCompression::EacRSigned
                | PkmCompression::EacRgSigned => Some(CompressionFamily::Eac),
                PkmCompression::Unknown => None,
            },
            ImageType::Pvrtc(compression) => match compression {
                PvrtcCompression::Pvrtc2BppRgb | PvrtcCompression::Pvrtc2BppRgba
                | PvrtcCompression::Pvrtc4BppRgb | PvrtcCompression::Pvrtc4BppRgba => Some(
                    CompressionFamily::Pvrtc,
                ),
                PvrtcCompression::Etc2Rgb | PvrtcCompression::Etc2Rgba
                | PvrtcCompression::Etc2RgbA1 => Some(CompressionFamily::Etc),
                PvrtcCompression::EacR11 | PvrtcCompression::EacRg11 => Some(
                    CompressionFamily::Eac,
                ),
                PvrtcCompression::Unknown => None,
            },
            ImageType::Atc(_) => Some(CompressionFamily::Atc),
            ImageType::Astc => Some(CompressionFamily::Astc),
            _ => None,
        }
    }

    /// True exactly when the format's compression family is the BC/DXT
    /// block-compression family.
    pub fn is_block_compressed(&self) -> (r: bool)
        ensures
            r == (compression_family_spec(*self) == Some(CompressionFamily::BlockCompression)),
    {
        matches!(self.compression_family(), Some(CompressionFamily::BlockCompression))
    }

    /// A human-readable container name for texture formats, none for
    /// simple image formats.
    pub fn container_format(&self) -> (r: Option<&'static str>)
        ensures
            r is Some == has_container_format(*self),
            (*self matches ImageType::Dds(_)) ==> r == Some("DDS"),
            ((*self matches ImageType::Etc2(_)) || (*self matches ImageType::Eac(_)) || (
            *self matches ImageType::Atc(_))) ==> r == Some("PKM"),
            (*self matches ImageType::Pvrtc(_)) ==> r == Some("PowerVR"),
            (*self == ImageType::Astc) ==> r == Some("ASTC"),
            (*self matches ImageType::Heif(_)) ==> r == Some("HEIF"),
            (*self == ImageType::Ktx2) ==> r == Some("KTX2"),
    {
        match self {
            ImageType::Dds(_) => Some("DDS"),
            ImageType::Etc2(_) => Some("PKM"),
            ImageType::Eac(_) => Some("PKM"),
            ImageType::Pvrtc(_) => Some("PowerVR"),
            ImageType::Atc(_) => Some("PKM"),
            ImageType::Astc => Some("ASTC"),
            ImageType::Heif(_) => Some("HEIF"),
            ImageType::Ktx2 => Some("KTX2"),
            _ => None,
        }
    }

    /// True for containers that can hold several compression algorithms.
    pub fn is_multi_compression_container(&self) -> (r: bool)
        ensures
            r == multi_compression_spec(*self),
    {
        match self {
            ImageType::Dds(_) => true,
            ImageType::Pvrtc(_) => true,
            ImageType::Ktx2 => true,
            _ => false,
        }
    }

    /// Run the size parser that belongs to this image type.
    pub fn reader_size(&self, data: &[u8]) -> (r: ImageResult<ImageSize>)
        ensures
            r == size_by_type_spec(*self, data@),
    {
        match self {
            ImageType::Aseprite => formats::aesprite::size(data),
            ImageType::Astc => formats::astc::size(data),
            ImageType::Atc(..) => container::atc::size(data),
            ImageType::Bmp => formats::bmp::size(data),
            ImageType::Dds(..) => container::dds::size(data),
            ImageType::Eac(..) => container::pkm::size(data),
            ImageType::Etc2(..) => container::pkm::size(data),
            ImageType::Exr => formats::exr::size(data),
            ImageType::Farbfeld => formats::farbfeld::size(data),
            ImageType::Gif => formats::gif::size(data),
            ImageType::Hdr => formats::hdr::size(data),
            ImageType::Heif(..) => container::heif::size(data),
            ImageType::Ico => formats::ico::size(data),
            ImageType::Ilbm => formats::ilbm::size(data),
            ImageType::Jpeg => formats::jpeg::size(data),
            ImageType::Jxl => formats::jxl::size(data),
            ImageType::Ktx2 => formats::ktx2::size(data),
            ImageType::Png => formats::png::size(data),
            ImageType::Pnm => formats::pnm::size(data),
            ImageType::Pvrtc(..) => container::pvrtc::size(data),
            ImageType::Psd => formats::psd::size(data),
            ImageType::Qoi => formats::qoi::size(data),
            ImageType::Tga => formats::tga::size(data),
            ImageType::Tiff => formats::tiff::size(data),
            ImageType::Vtf => formats::vtf::size(data),
            ImageType::Webp => formats::webp::size(data),
        }
    }
}

/// Get the image type from a header: the sniffing step alone, no size
/// extraction.
pub fn image_type(header: &[u8]) -> (r: ImageResult<ImageType>)
    ensures
        r == formats::image_type_spec(header@),
{
    formats::image_type(header)
}

/// Get the image size from a block of raw data: classify, then parse.
pub fn blob_size(data: &[u8]) -> (r: ImageResult<ImageSize>)
    ensures
        r == blob_size_spec(data@),
{
    reader_size(data)
}

/// The canonical entry point over in-memory bytes: sniff the format, then
/// run its parser on the same buffer.
pub fn reader_size(data: &[u8]) -> (r: ImageResult<ImageSize>)
    ensures
        r == blob_size_spec(data@),
{
    let t = match reader_type(data) {
        Ok(t) => t,
        Err(e) => {
            return Err(e);
        },
    };
    t.reader_size(data)
}

/// Get the image type from in-memory bytes.
pub fn reader_type(data: &[u8]) -> (r: ImageResult<ImageType>)
    ensures
        r == formats::image_type_spec(data@),
{
    formats::image_type(data)
}

/// Law: any buffer that opens with the GIF signature and reaches the
/// sniffing window round-trips through the whole pipeline — the dispatcher
/// selects GIF (no earlier predicate can fire on that signature) and the
/// reported size is exactly the stored little-endian pair, for every such
/// buffer and every stored width and height.
pub proof fn lemma_gif_round_trip(d: Seq<u8>)
    requires
        d.len() >= 12,
        formats::gif::matches_spec(d.take(12)),
    ensures
        blob_size_spec(d) == Ok::<ImageSize, ImageError>(
            (
            ImageSize {
                width: util::le16(d, 6) as usize,
                height: util::le16(d, 8) as usize,
            }
            ),
        ),
{
    let h = d.take(12);
    assert(!formats::jpeg::matches_spec(h));
    assert(!formats::png::matches_spec(h));
    assert(formats::image_type_spec(d) == Ok::<ImageType, ImageError>(ImageType::Gif));
}

/// Law: a buffer that ends before a format's dimension fields are complete
/// yields the end-of-data error, never a fabricated size.  Stated here for
/// every fixed-layout parser at its exact threshold, and for the walking
/// parsers at the point before their first structural read.
pub proof fn lemma_truncation_yields_io_error(d: Seq<u8>)
    ensures
        d.len() < 24 ==> formats::png::size_spec(d) == Err::<ImageSize, ImageError>(
            ImageError::IoError,
        ),
        d.len() < 10 ==> formats::gif::size_spec(d) == Err::<ImageSize, ImageError>(
            ImageError::IoError,
        ),
        d.len() < 26 ==> formats::bmp::size_spec(d) == Err::<ImageSize, ImageError>(
            ImageError::IoError,
        ),
        d.len() < 22 ==> formats::psd::size_spec(d) == Err::<ImageSize, ImageError>(
            ImageError::IoError,
        ),
        d.len() < 12 ==> formats::qoi::size_spec(d) == Err::<ImageSize, ImageError>(
            ImageError::IoError,
        ),
        d.len() < 16 ==> formats::farbfeld::size_spec(d) == Err::<ImageSize, ImageError>(
            ImageError::IoError,
        ),
        d.len() < 20 ==> formats::vtf::size_spec(d) == Err::<ImageSize, ImageError>(
            ImageError::IoError,
        ),
        d.len() < 12 ==> formats::aesprite::size_spec(d) == Err::<ImageSize, ImageError>(
            ImageError::IoError,
        ),
        d.len() < 13 ==> formats::astc::size_spec(d) == Err::<ImageSize, ImageError>(
            ImageError::IoError,
        ),
        d.len() < 18 ==> formats::tga::size_spec(d) == Err::<ImageSize, ImageError>(
            ImageError::IoError,
        ),
        d.len() < 52 ==> formats::ktx2::size_spec(d) == Err::<ImageSize, ImageError>(
            ImageError::IoError,
        ),
        d.len() < 16 ==> container::pkm::size_spec(d) == Err::<ImageSize, ImageError>(
            ImageError::IoError,
        ),
        d.len() < 20 ==> container::dds::size_spec(d) == Err::<ImageSize, ImageError>(
            ImageError::IoError,
        ),
        d.len() < 12 ==> container::pvrtc::size_spec(d) == Err::<ImageSize, ImageError>(
            ImageError::IoError,
        ),
        d.len() < 6 ==> formats::ico::size_spec(d) == Err::<ImageSize, ImageError>(
            ImageError::IoError,
        ),
        d.len() < 16 ==> formats::webp::size_spec(d) == Err::<ImageSize, ImageError>(
            ImageError::IoError,
        ),
        d.len() < 2 ==> formats::tiff::size_spec(d) == Err::<ImageSize, ImageError>(
            ImageError::IoError,
        ),
        d.len() < 4 ==> formats::jpeg::size_spec(d) == Err::<ImageSize, ImageError>(
            ImageError::IoError,
        ),
        d.len() < 4 ==> container::heif::size_spec(d) == Err::<ImageSize, ImageError>(
            ImageError::IoError,
        ),
        d.len() < 8 ==> formats::exr::size_spec(d) == Err::<ImageSize, ImageError>(
            ImageError::IoError,
        ),
        d.len() < 20 ==> formats::ilbm::size_spec(d) == Err::<ImageSize, ImageError>(
            ImageError::IoError,
        ),
        d.len() == 0 ==> formats::hdr::size_spec(d) == Err::<ImageSize, ImageError>(
            ImageError::IoError,
        ),
        d.len() < 2 ==> formats::pnm::size_spec(d) == Err::<ImageSize, ImageError>(
            ImageError::IoError,
        ),
        d.len() < 2 ==> formats::jxl::size_spec(d) == Err::<ImageSize, ImageError>(
            ImageError::IoError,
        ),
        d.len() < 12 ==> formats::image_type_spec(d) == Err::<ImageType, ImageError>(
            ImageError::IoError,
        ),
{
    if d.len() == 0 {
        crate::util::lemma_find_byte(d, 0, 0x0a);
    }
}

} // verus!
