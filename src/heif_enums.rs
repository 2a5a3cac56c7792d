//! Plain-value enums of the HEIF codec interface and their numeric codes.
use vstd::prelude::*;

verus! {

/// Chroma subsampling of a YCbCr image.
#[derive(Debug, Copy, Clone, PartialEq, Eq, Hash, Structural)]
pub enum Chroma {
    C420,
    C422,
    C444,
}

/// Layout of an RGB image.
#[derive(Debug, Copy, Clone, PartialEq, Eq, Hash, Structural)]
pub enum RgbChroma {
    C444,
    // Interleaved
    Rgb,
    Rgba,
    HdrRgbBe,
    HdrRgbaBe,
    HdrRgbLe,
    HdrRgbaLe,
}

/// Color space of an image together with its chroma layout.
#[derive(Debug, Copy, Clone, PartialEq, Eq, Hash, Structural)]
pub enum ColorSpace {
    Undefined,
    YCbCr(Chroma),
    Rgb(RgbChroma),
    Monochrome,
}

pub const COLORSPACE_YCBCR: u32 = 0;
pub const COLORSPACE_RGB: u32 = 1;
pub const COLORSPACE_MONOCHROME: u32 = 2;
pub const COLORSPACE_UNDEFINED: u32 = 99;

pub const CHROMA_MONOCHROME: u32 = 0;
pub const CHROMA_420: u32 = 1;
pub const CHROMA_422: u32 = 2;
pub const CHROMA_444: u32 = 3;
pub const CHROMA_INTERLEAVED_RGB: u32 = 10;
pub const CHROMA_INTERLEAVED_RGBA: u32 = 11;
pub const CHROMA_INTERLEAVED_RRGGBB_BE: u32 = 12;
pub const CHROMA_INTERLEAVED_RRGGBBAA_BE: u32 = 13;
pub const CHROMA_INTERLEAVED_RRGGBB_LE: u32 = 14;
pub const CHROMA_INTERLEAVED_RRGGBBAA_LE: u32 = 15;
pub const CHROMA_UNDEFINED: u32 = 99;

impl ColorSpace {
    /// The color space that a pair of codec values (color space, chroma) stands for.
    pub open spec fn spec_from_libheif(color_space: u32, chroma: u32) -> Option<ColorSpace> {
        if color_space == COLORSPACE_UNDEFINED {
            Some(ColorSpace::Undefined)
        } else if color_space == COLORSPACE_MONOCHROME {
            Some(ColorSpace::Monochrome)
        } else if color_space == COLORSPACE_YCBCR {
            if chroma == CHROMA_420 {
                Some(ColorSpace::YCbCr(Chroma::C420))
            } else if chroma == CHROMA_422 {
                Some(ColorSpace::YCbCr(Chroma::C422))
            } else if chroma == CHROMA_444 {
                Some(ColorSpace::YCbCr(Chroma::C444))
            } else {
                None
            }
        } else if color_space == COLORSPACE_RGB {
            if chroma == CHROMA_444 {
                Some(ColorSpace::Rgb(RgbChroma::C444))
            } else if chroma == CHROMA_INTERLEAVED_RGB {
                Some(ColorSpace::Rgb(RgbChroma::Rgb))
            } else if chroma == CHROMA_INTERLEAVED_RGBA {
                Some(ColorSpace::Rgb(RgbChroma::Rgba))
            } else if chroma == CHROMA_INTERLEAVED_RRGGBB_BE {
                Some(ColorSpace::Rgb(RgbChroma::HdrRgbBe))
            } else if chroma == CHROMA_INTERLEAVED_RRGGBB_LE {
                Some(ColorSpace::Rgb(RgbChroma::HdrRgbLe))
            } else if chroma == CHROMA_INTERLEAVED_RRGGBBAA_BE {
                Some(ColorSpace::Rgb(RgbChroma::HdrRgbaBe))
            } else if chroma == CHROMA_INTERLEAVED_RRGGBBAA_LE {
                Some(ColorSpace::Rgb(RgbChroma::HdrRgbaLe))
            } else {
                None
            }
        } else {
            None
        }
    }

    /// The codec's color space value for this color space.
    pub open spec fn spec_heif_color_space(self) -> u32 {
        match self {
            ColorSpace::YCbCr(_) => COLORSPACE_YCBCR,
            ColorSpace::Rgb(_) => COLORSPACE_RGB,
            ColorSpace::Monochrome => COLORSPACE_MONOCHROME,
            ColorSpace::Undefined => COLORSPACE_UNDEFINED,
        }
    }

    /// The codec's chroma value for this color space.
    pub open spec fn spec_heif_chroma(self) -> u32 {
        match self {
            ColorSpace::YCbCr(chroma) => match chroma {
                Chroma::C420 => CHROMA_420,
                Chroma::C422 => CHROMA_422,
                Chroma::C444 => CHROMA_444,
            },
            ColorSpace::Rgb(chroma) => match chroma {
                RgbChroma::C444 => CHROMA_444,
                RgbChroma::Rgb => CHROMA_INTERLEAVED_RGB,
                RgbChroma::Rgba => CHROMA_INTERLEAVED_RGBA,
                RgbChroma::HdrRgbBe => CHROMA_INTERLEAVED_RRGGBB_BE,
                RgbChroma::HdrRgbLe => CHROMA_INTERLEAVED_RRGGBB_LE,
                RgbChroma::HdrRgbaBe => CHROMA_INTERLEAVED_RRGGBBAA_BE,
                RgbChroma::HdrRgbaLe => CHROMA_INTERLEAVED_RRGGBBAA_LE,
            },
            ColorSpace::Undefined => CHROMA_UNDEFINED,
            ColorSpace::Monochrome => CHROMA_MONOCHROME,
        }
    }

    /// The color space that the codec's pair (color space, chroma) stands for; `None`
    /// for a pair that names none.
    pub fn from_libheif(color_space: u32, chroma: u32) -> (r: Option<Self>)
        ensures
            r == ColorSpace::spec_from_libheif(color_space, chroma),
    {
        if color_space == COLORSPACE_UNDEFINED {
            Some(ColorSpace::Undefined)
        } else if color_space == COLORSPACE_MONOCHROME {
            Some(ColorSpace::Monochrome)
        } else if color_space == COLORSPACE_YCBCR {
            if chroma == CHROMA_420 {
                Some(ColorSpace::YCbCr(Chroma::C420))
            } else if chroma == CHROMA_422 {
                Some(ColorSpace::YCbCr(Chroma::C422))
            } else if chroma == CHROMA_444 {
                Some(ColorSpace::YCbCr(Chroma::C444))
            } else {
                None
            }
        } else if color_space == COLORSPACE_RGB {
            if chroma == CHROMA_444 {
                Some(ColorSpace::Rgb(RgbChroma::C444))
            } else if chroma == CHROMA_INTERLEAVED_RGB {
                Some(ColorSpace::Rgb(RgbChroma::Rgb))
            } else if chroma == CHROMA_INTERLEAVED_RGBA {
                Some(ColorSpace::Rgb(RgbChroma::Rgba))
            } else if chroma == CHROMA_INTERLEAVED_RRGGBB_BE {
                Some(ColorSpace::Rgb(RgbChroma::HdrRgbBe))
            } else if chroma == CHROMA_INTERLEAVED_RRGGBB_LE {
                Some(ColorSpace::Rgb(RgbChroma::HdrRgbLe))
            } else if chroma == CHROMA_INTERLEAVED_RRGGBBAA_BE {
                Some(ColorSpace::Rgb(RgbChroma::HdrRgbaBe))
            } else if chroma == CHROMA_INTERLEAVED_RRGGBBAA_LE {
                Some(ColorSpace::Rgb(RgbChroma::HdrRgbaLe))
            } else {
                None
            }
        } else {
            None
        }
    }

    /// The codec's color space value.
    pub fn heif_color_space(self) -> (r: u32)
        ensures
            r == self.spec_heif_color_space(),
    {
        match self {
            ColorSpace::YCbCr(_) => COLORSPACE_YCBCR,
            ColorSpace::Rgb(_) => COLORSPACE_RGB,
            ColorSpace::Monochrome => COLORSPACE_MONOCHROME,
            ColorSpace::Undefined => COLORSPACE_UNDEFINED,
        }
    }

    /// The codec's chroma value.
    pub fn heif_chroma(self) -> (r: u32)
        ensures
            r == self.spec_heif_chroma(),
    {
        match self {
            ColorSpace::YCbCr(chroma) => match chroma {
                Chroma::C420 => CHROMA_420,
                Chroma::C422 => CHROMA_422,
                Chroma::C444 => CHROMA_444,
            },
            ColorSpace::Rgb(chroma) => match chroma {
                RgbChroma::C444 => CHROMA_444,
                RgbChroma::Rgb => CHROMA_INTERLEAVED_RGB,
                RgbChroma::Rgba => CHROMA_INTERLEAVED_RGBA,
                RgbChroma::HdrRgbBe => CHROMA_INTERLEAVED_RRGGBB_BE,
                RgbChroma::HdrRgbLe => CHROMA_INTERLEAVED_RRGGBB_LE,
                RgbChroma::HdrRgbaBe => CHROMA_INTERLEAVED_RRGGBBAA_BE,
                RgbChroma::HdrRgbaLe => CHROMA_INTERLEAVED_RRGGBBAA_LE,
            },
            ColorSpace::Undefined => CHROMA_UNDEFINED,
            ColorSpace::Monochrome => CHROMA_MONOCHROME,
        }
    }

    /// Every color space is read back from its pair of codec values.
    pub proof fn lemma_libheif_round_trip(self)
        ensures
            ColorSpace::spec_from_libheif(self.spec_heif_color_space(), self.spec_heif_chroma()) == Some(self),
    {
    }
}

/// A plane of an image.
#[derive(Debug, Copy, Clone, PartialEq, Eq, Hash, Structural)]
pub enum Channel {
    Y,
    Cb,
    Cr,
    R,
    G,
    B,
    Alpha,
    Interleaved,
}

impl Channel {
    /// The value that stands for this variant in the codec's interface.
    pub open spec fn spec_raw(self) -> u32 {
        match self {
            Channel::Y => 0,
            Channel::Cb => 1,
            Channel::Cr => 2,
            Channel::R => 3,
            Channel::G => 4,
            Channel::B => 5,
            Channel::Alpha => 6,
            Channel::Interleaved => 10,
        }
    }

    /// The value that stands for this variant in the codec's interface.
    pub fn raw(self) -> (r: u32)
        ensures
            r == self.spec_raw(),
    {
        match self {
            Channel::Y => 0,
            Channel::Cb => 1,
            Channel::Cr => 2,
            Channel::R => 3,
            Channel::G => 4,
            Channel::B => 5,
            Channel::Alpha => 6,
            Channel::Interleaved => 10,
        }
    }
}

/// What waiting for a source to reach a size gave.
#[derive(Debug, Copy, Clone, PartialEq, Eq, Hash, Structural)]
pub enum ReaderGrowStatus {
    SizeReached,
    Timeout,
    SizeBeyondEof,
}

impl ReaderGrowStatus {
    /// The value that stands for this variant in the codec's interface.
    pub open spec fn spec_raw(self) -> u32 {
        match self {
            ReaderGrowStatus::SizeReached => 0,
            ReaderGrowStatus::Timeout => 1,
            ReaderGrowStatus::SizeBeyondEof => 2,
        }
    }

    /// The value that stands for this variant in the codec's interface.
    pub fn raw(self) -> (r: u32)
        ensures
            r == self.spec_raw(),
    {
        match self {
            ReaderGrowStatus::SizeReached => 0,
            ReaderGrowStatus::Timeout => 1,
            ReaderGrowStatus::SizeBeyondEof => 2,
        }
    }
}

/// Whether leading bytes look like a HEIF file.
#[derive(Debug, Copy, Clone, PartialEq, Eq, Hash, Structural)]
pub enum FileTypeResult {
    No,
    /// It is HEIF and can be read by the codec
    Supported,
    /// It is HEIF, but cannot be read by the codec
    Unsupported,
    /// Not sure whether it is an HEIF, try detection with more input data
    MayBe,
}

impl FileTypeResult {
    /// The value that stands for this variant in the codec's interface.
    pub open spec fn spec_raw(self) -> u32 {
        match self {
            FileTypeResult::No => 0,
            FileTypeResult::Supported => 1,
            FileTypeResult::Unsupported => 2,
            FileTypeResult::MayBe => 3,
        }
    }

    /// The variant that the codec's value `v` stands for, if any.
    pub open spec fn spec_n(v: u32) -> Option<FileTypeResult> {
        if v == 0 {
            Some(FileTypeResult::No)
        } else if v == 1 {
            Some(FileTypeResult::Supported)
        } else if v == 2 {
            Some(FileTypeResult::Unsupported)
        } else if v == 3 {
            Some(FileTypeResult::MayBe)
        } else {
            None
        }
    }

    /// The value that stands for this variant in the codec's interface.
    pub fn raw(self) -> (r: u32)
        ensures
            r == self.spec_raw(),
    {
        match self {
            FileTypeResult::No => 0,
            FileTypeResult::Supported => 1,
            FileTypeResult::Unsupported => 2,
            FileTypeResult::MayBe => 3,
        }
    }

    /// The variant that the codec's value `v` stands for, if any.
    pub fn n(v: u32) -> (r: Option<FileTypeResult>)
        ensures
            r == FileTypeResult::spec_n(v),
    {
        if v == 0 {
            Some(FileTypeResult::No)
        } else if v == 1 {
            Some(FileTypeResult::Supported)
        } else if v == 2 {
            Some(FileTypeResult::Unsupported)
        } else if v == 3 {
            Some(FileTypeResult::MayBe)
        } else {
            None
        }
    }
}

/// Orientation of an image (EXIF numbering).
#[derive(Debug, Copy, Clone, PartialEq, Eq, Hash, Structural)]
pub enum ImageOrientation {
    Normal,
    FlipHorizontally,
    Rotate180,
    FlipVertically,
    Rotate90CwThenFlipHorizontally,
    Rotate90Cw,
    Rotate90CwThenFlipVertically,
    Rotate270Cw,
    /// Used when the codec gives an orientation value that has no variant.
    Unknown,
}

impl ImageOrientation {
    /// The value that stands for this variant in the codec's interface.
    pub open spec fn spec_raw(self) -> u32 {
        match self {
            ImageOrientation::Normal => 1,
            ImageOrientation::FlipHorizontally => 2,
            ImageOrientation::Rotate180 => 3,
            ImageOrientation::FlipVertically => 4,
            ImageOrientation::Rotate90CwThenFlipHorizontally => 5,
            ImageOrientation::Rotate90Cw => 6,
            ImageOrientation::Rotate90CwThenFlipVertically => 7,
            ImageOrientation::Rotate270Cw => 8,
            ImageOrientation::Unknown => 9,
        }
    }

    /// The variant that the codec's value `v` stands for, if any.
    pub open spec fn spec_n(v: u32) -> Option<ImageOrientation> {
        if v == 1 {
            Some(ImageOrientation::Normal)
        } else if v == 2 {
            Some(ImageOrientation::FlipHorizontally)
        } else if v == 3 {
            Some(ImageOrientation::Rotate180)
        } else if v == 4 {
            Some(ImageOrientation::FlipVertically)
        } else if v == 5 {
            Some(ImageOrientation::Rotate90CwThenFlipHorizontally)
        } else if v == 6 {
            Some(ImageOrientation::Rotate90Cw)
        } else if v == 7 {
            Some(ImageOrientation::Rotate90CwThenFlipVertically)
        } else if v == 8 {
            Some(ImageOrientation::Rotate270Cw)
        } else if v == 9 {
            Some(ImageOrientation::Unknown)
        } else {
            None
        }
    }

    /// The value that stands for this variant in the codec's interface.
    pub fn raw(self) -> (r: u32)
        ensures
            r == self.spec_raw(),
    {
        match self {
            ImageOrientation::Normal => 1,
            ImageOrientation::FlipHorizontally => 2,
            ImageOrientation::Rotate180 => 3,
            ImageOrientation::FlipVertically => 4,
            ImageOrientation::Rotate90CwThenFlipHorizontally => 5,
            ImageOrientation::Rotate90Cw => 6,
            ImageOrientation::Rotate90CwThenFlipVertically => 7,
            ImageOrientation::Rotate270Cw => 8,
            ImageOrientation::Unknown => 9,
        }
    }

    /// The variant that the codec's value `v` stands for, if any.
    pub fn n(v: u32) -> (r: Option<ImageOrientation>)
        ensures
            r == ImageOrientation::spec_n(v),
    {
        if v == 1 {
            Some(ImageOrientation::Normal)
        } else if v == 2 {
            Some(ImageOrientation::FlipHorizontally)
        } else if v == 3 {
            Some(ImageOrientation::Rotate180)
        } else if v == 4 {
            Some(ImageOrientation::FlipVertically)
        } else if v == 5 {
            Some(ImageOrientation::Rotate90CwThenFlipHorizontally)
        } else if v == 6 {
            Some(ImageOrientation::Rotate90Cw)
        } else if v == 7 {
            Some(ImageOrientation::Rotate90CwThenFlipVertically)
        } else if v == 8 {
            Some(ImageOrientation::Rotate270Cw)
        } else if v == 9 {
            Some(ImageOrientation::Unknown)
        } else {
            None
        }
    }
}

/// Algorithm for reducing chroma resolution.
#[derive(Debug, Copy, Clone, PartialEq, Eq, Hash, Structural)]
pub enum ChromaDownsamplingAlgorithm {
    NearestNeighbor,
    Average,
    /// Combine with `ChromaUpsamplingAlgorithm::Bilinear` for best quality.
    SharpYuv,
}

impl ChromaDownsamplingAlgorithm {
    /// The value that stands for this variant in the codec's interface.
    pub open spec fn spec_raw(self) -> u32 {
        match self {
            ChromaDownsamplingAlgorithm::NearestNeighbor => 1,
            ChromaDownsamplingAlgorithm::Average => 2,
            ChromaDownsamplingAlgorithm::SharpYuv => 3,
        }
    }

    /// The variant that the codec's value `v` stands for, if any.
    pub open spec fn spec_n(v: u32) -> Option<ChromaDownsamplingAlgorithm> {
        if v == 1 {
            Some(ChromaDownsamplingAlgorithm::NearestNeighbor)
        } else if v == 2 {
            Some(ChromaDownsamplingAlgorithm::Average)
        } else if v == 3 {
            Some(ChromaDownsamplingAlgorithm::SharpYuv)
        } else {
            None
        }
    }

    /// The value that stands for this variant in the codec's interface.
    pub fn raw(self) -> (r: u32)
        ensures
            r == self.spec_raw(),
    {
        match self {
            ChromaDownsamplingAlgorithm::NearestNeighbor => 1,
            ChromaDownsamplingAlgorithm::Average => 2,
            ChromaDownsamplingAlgorithm::SharpYuv => 3,
        }
    }

    /// The variant that the codec's value `v` stands for, if any.
    pub fn n(v: u32) -> (r: Option<ChromaDownsamplingAlgorithm>)
        ensures
            r == ChromaDownsamplingAlgorithm::spec_n(v),
    {
        if v == 1 {
            Some(ChromaDownsamplingAlgorithm::NearestNeighbor)
        } else if v == 2 {
            Some(ChromaDownsamplingAlgorithm::Average)
        } else if v == 3 {
            Some(ChromaDownsamplingAlgorithm::SharpYuv)
        } else {
            None
        }
    }
}

/// Algorithm for raising chroma resolution.
#[derive(Debug, Copy, Clone, PartialEq, Eq, Hash, Structural)]
pub enum ChromaUpsamplingAlgorithm {
    NearestNeighbor,
    Bilinear,
}

impl ChromaUpsamplingAlgorithm {
    /// The value that stands for this variant in the codec's interface.
    pub open spec fn spec_raw(self) -> u32 {
        match self {
            ChromaUpsamplingAlgorithm::NearestNeighbor => 1,
            ChromaUpsamplingAlgorithm::Bilinear => 2,
        }
    }

    /// The variant that the codec's value `v` stands for, if any.
    pub open spec fn spec_n(v: u32) -> Option<ChromaUpsamplingAlgorithm> {
        if v == 1 {
            Some(ChromaUpsamplingAlgorithm::NearestNeighbor)
        } else if v == 2 {
            Some(ChromaUpsamplingAlgorithm::Bilinear)
        } else {
            None
        }
    }

    /// The value that stands for this variant in the codec's interface.
    pub fn raw(self) -> (r: u32)
        ensures
            r == self.spec_raw(),
    {
        match self {
            ChromaUpsamplingAlgorithm::NearestNeighbor => 1,
            ChromaUpsamplingAlgorithm::Bilinear => 2,
        }
    }

    /// The variant that the codec's value `v` stands for, if any.
    pub fn n(v: u32) -> (r: Option<ChromaUpsamplingAlgorithm>)
        ensures
            r == ChromaUpsamplingAlgorithm::spec_n(v),
    {
        if v == 1 {
            Some(ChromaUpsamplingAlgorithm::NearestNeighbor)
        } else if v == 2 {
            Some(ChromaUpsamplingAlgorithm::Bilinear)
        } else {
            None
        }
    }
}

} // verus!
