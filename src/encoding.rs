//! Encoder settings of the HEIF codec interface, as plain values.
use vstd::prelude::*;
use crate::heif_enums::{ChromaDownsamplingAlgorithm, ChromaUpsamplingAlgorithm, ImageOrientation};
use crate::heif_error::HeifError;

verus! {

/// Compression format of an encoder.
#[derive(Debug, Copy, Clone, PartialEq, Eq, Hash, Structural)]
pub enum CompressionFormat {
    Undefined,
    Hevc,
    Avc,
    Jpeg,
    Av1,
    Vvc,
    Evc,
    Jpeg2000,
    Uncompressed,
}

impl CompressionFormat {
    /// The value that stands for this variant in the codec's interface.
    pub open spec fn spec_raw(self) -> u32 {
        match self {
            CompressionFormat::Undefined => 0,
            CompressionFormat::Hevc => 1,
            CompressionFormat::Avc => 2,
            CompressionFormat::Jpeg => 3,
            CompressionFormat::Av1 => 4,
            CompressionFormat::Vvc => 5,
            CompressionFormat::Evc => 6,
            CompressionFormat::Jpeg2000 => 7,
            CompressionFormat::Uncompressed => 8,
        }
    }

    /// The variant that the codec's value `v` stands for, if any.
    pub open spec fn spec_n(v: u32) -> Option<CompressionFormat> {
        if v == 0 {
            Some(CompressionFormat::Undefined)
        } else if v == 1 {
            Some(CompressionFormat::Hevc)
        } else if v == 2 {
            Some(CompressionFormat::Avc)
        } else if v == 3 {
            Some(CompressionFormat::Jpeg)
        } else if v == 4 {
            Some(CompressionFormat::Av1)
        } else if v == 5 {
            Some(CompressionFormat::Vvc)
        } else if v == 6 {
            Some(CompressionFormat::Evc)
        } else if v == 7 {
            Some(CompressionFormat::Jpeg2000)
        } else if v == 8 {
            Some(CompressionFormat::Uncompressed)
        } else {
            None
        }
    }

    /// The value that stands for this variant in the codec's interface.
    pub fn raw(self) -> (r: u32)
        ensures
            r == self.spec_raw(),
    {
        match self {
            CompressionFormat::Undefined => 0,
            CompressionFormat::Hevc => 1,
            CompressionFormat::Avc => 2,
            CompressionFormat::Jpeg => 3,
            CompressionFormat::Av1 => 4,
            CompressionFormat::Vvc => 5,
            CompressionFormat::Evc => 6,
            CompressionFormat::Jpeg2000 => 7,
            CompressionFormat::Uncompressed => 8,
        }
    }

    /// The variant that the codec's value `v` stands for, if any.
    pub fn n(v: u32) -> (r: Option<CompressionFormat>)
        ensures
            r == CompressionFormat::spec_n(v),
    {
        if v == 0 {
            Some(CompressionFormat::Undefined)
        } else if v == 1 {
            Some(CompressionFormat::Hevc)
        } else if v == 2 {
            Some(CompressionFormat::Avc)
        } else if v == 3 {
            Some(CompressionFormat::Jpeg)
        } else if v == 4 {
            Some(CompressionFormat::Av1)
        } else if v == 5 {
            Some(CompressionFormat::Vvc)
        } else if v == 6 {
            Some(CompressionFormat::Evc)
        } else if v == 7 {
            Some(CompressionFormat::Jpeg2000)
        } else if v == 8 {
            Some(CompressionFormat::Uncompressed)
        } else {
            None
        }
    }
}

/// Type of an encoder parameter.
#[derive(Debug, Copy, Clone, PartialEq, Eq, Hash, Structural)]
pub enum EncoderParameterType {
    Int,
    Bool,
    String,
}

impl EncoderParameterType {
    /// The variant that the codec's value `v` stands for, if any.
    pub open spec fn spec_n(v: u32) -> Option<EncoderParameterType> {
        if v == 1 {
            Some(EncoderParameterType::Int)
        } else if v == 2 {
            Some(EncoderParameterType::Bool)
        } else if v == 3 {
            Some(EncoderParameterType::String)
        } else {
            None
        }
    }

    /// The variant that the codec's value `v` stands for, if any.
    pub fn n(v: u32) -> (r: Option<EncoderParameterType>)
        ensures
            r == EncoderParameterType::spec_n(v),
    {
        if v == 1 {
            Some(EncoderParameterType::Int)
        } else if v == 2 {
            Some(EncoderParameterType::Bool)
        } else if v == 3 {
            Some(EncoderParameterType::String)
        } else {
            None
        }
    }
}

/// Value of an encoder parameter.
#[derive(Debug, Clone, PartialEq, Eq, Hash)]
pub enum EncoderParameterValue {
    Int(i32),
    Bool(bool),
    String(String),
}

/// Quality setting of an encoder.
#[derive(Debug, Clone, PartialEq, Eq, Hash, Structural)]
pub enum EncoderQuality {
    LossLess,
    /// Value inside variant is a 'quality' factor (0-100).
    /// How this is mapped to actual encoding parameters is encoder dependent.
    Lossy(u8),
}

/// Preferred algorithms for chroma conversion.
#[derive(Debug, Copy, Clone, PartialEq, Eq, Structural)]
pub struct ColorConversionOptions {
    pub preferred_chroma_downsampling_algorithm: ChromaDownsamplingAlgorithm,
    pub preferred_chroma_upsampling_algorithm: ChromaUpsamplingAlgorithm,
    /// When set to `false`, the codec may also use a different algorithm
    /// if the preferred one is not available.
    pub only_use_preferred_chroma_algorithm: bool,
}

/// The codec's record of encoding options, field by field.
pub struct EncodingOptionsRecord {
    pub version: u8,
    pub save_alpha_channel: u8,
    pub macos_compatibility_workaround: u8,
    pub save_two_colr_boxes_when_icc_and_nclx_available: u8,
    pub macos_compatibility_workaround_no_nclx_profile: u8,
    pub image_orientation: u32,
    pub preferred_chroma_downsampling_algorithm: u32,
    pub preferred_chroma_upsampling_algorithm: u32,
    pub only_use_preferred_chroma_algorithm: u8,
}

/// Version of the encoding options record.
pub const ENCODING_OPTIONS_VERSION: u8 = 6;

/// The codec's defaults for encoding options.
pub open spec fn default_encoding_record() -> EncodingOptionsRecord {
    EncodingOptionsRecord {
        version: ENCODING_OPTIONS_VERSION,
        save_alpha_channel: 1,
        macos_compatibility_workaround: 0,
        save_two_colr_boxes_when_icc_and_nclx_available: 0,
        macos_compatibility_workaround_no_nclx_profile: 1,
        image_orientation: 1,
        preferred_chroma_downsampling_algorithm: 2,
        preferred_chroma_upsampling_algorithm: 2,
        only_use_preferred_chroma_algorithm: 0,
    }
}

/// Options for encoding an image.
pub struct EncodingOptions {
    rec: EncodingOptionsRecord,
}

impl View for EncodingOptions {
    type V = EncodingOptionsRecord;

    closed spec fn view(&self) -> EncodingOptionsRecord {
        self.rec
    }
}

impl EncodingOptions {
    /// Options with the codec's defaults: alpha saved, orientation normal, average
    /// chroma downsampling and bilinear upsampling.
    pub fn new() -> (r: Result<Self, HeifError>)
        ensures
            r is Ok,
            r->Ok_0@ == default_encoding_record(),
    {
        Ok(EncodingOptions {
            rec: EncodingOptionsRecord {
                version: ENCODING_OPTIONS_VERSION,
                save_alpha_channel: 1,
                macos_compatibility_workaround: 0,
                save_two_colr_boxes_when_icc_and_nclx_available: 0,
                macos_compatibility_workaround_no_nclx_profile: 1,
                image_orientation: 1,
                preferred_chroma_downsampling_algorithm: 2,
                preferred_chroma_upsampling_algorithm: 2,
                only_use_preferred_chroma_algorithm: 0,
            },
        })
    }

    pub fn version(&self) -> (r: u8)
        ensures
            r == self@.version,
    {
        self.rec.version
    }

    pub fn save_alpha_channel(&self) -> (r: bool)
        ensures
            r == (self@.save_alpha_channel != 0),
    {
        self.rec.save_alpha_channel != 0
    }

    pub fn set_save_alpha_channel(&mut self, enable: bool)
        ensures
            final(self)@ == (EncodingOptionsRecord { save_alpha_channel: if enable { 1u8 } else { 0u8 }, ..old(self)@ }),
    {
        self.rec.save_alpha_channel = if enable { 1 } else { 0 };
    }

    pub fn mac_os_compatibility_workaround(&self) -> (r: bool)
        ensures
            r == (self@.macos_compatibility_workaround != 0),
    {
        self.rec.macos_compatibility_workaround != 0
    }

    pub fn set_mac_os_compatibility_workaround(&mut self, enable: bool)
        ensures
            final(self)@ == (EncodingOptionsRecord { macos_compatibility_workaround: if enable { 1u8 } else { 0u8 }, ..old(self)@ }),
    {
        self.rec.macos_compatibility_workaround = if enable { 1 } else { 0 };
    }

    pub fn save_two_colr_boxes_when_icc_and_nclx_available(&self) -> (r: bool)
        ensures
            r == (self@.save_two_colr_boxes_when_icc_and_nclx_available != 0),
    {
        self.rec.save_two_colr_boxes_when_icc_and_nclx_available != 0
    }

    pub fn set_save_two_colr_boxes_when_icc_and_nclx_available(&mut self, enable: bool)
        ensures
            final(self)@ == (EncodingOptionsRecord {
                save_two_colr_boxes_when_icc_and_nclx_available: if enable { 1u8 } else { 0u8 },
                ..old(self)@
            }),
    {
        self.rec.save_two_colr_boxes_when_icc_and_nclx_available = if enable { 1 } else { 0 };
    }

    pub fn mac_os_compatibility_workaround_no_nclx_profile(&self) -> (r: bool)
        ensures
            r == (self@.macos_compatibility_workaround_no_nclx_profile != 0),
    {
        self.rec.macos_compatibility_workaround_no_nclx_profile != 0
    }

    pub fn set_mac_os_compatibility_workaround_no_nclx_profile(&mut self, enable: bool)
        ensures
            final(self)@ == (EncodingOptionsRecord {
                macos_compatibility_workaround_no_nclx_profile: if enable { 1u8 } else { 0u8 },
                ..old(self)@
            }),
    {
        self.rec.macos_compatibility_workaround_no_nclx_profile = if enable { 1 } else { 0 };
    }

    /// The orientation; `Normal` for a value that names none.
    pub fn image_orientation(&self) -> (r: ImageOrientation)
        ensures
            r == match ImageOrientation::spec_n(self@.image_orientation) {
                Some(o) => o,
                None => ImageOrientation::Normal,
            },
    {
        match ImageOrientation::n(self.rec.image_orientation) {
            Some(o) => o,
            None => ImageOrientation::Normal,
        }
    }

    pub fn set_image_orientation(&mut self, orientation: ImageOrientation)
        ensures
            final(self)@ == (EncodingOptionsRecord { image_orientation: orientation.spec_raw(), ..old(self)@ }),
    {
        self.rec.image_orientation = orientation.raw();
    }

    /// The chroma conversion options; a value that names no algorithm reads as
    /// `Average` (downsampling) or `Bilinear` (upsampling).
    pub fn color_conversion_options(&self) -> (r: ColorConversionOptions)
        ensures
            r.preferred_chroma_downsampling_algorithm == match ChromaDownsamplingAlgorithm::spec_n(self@.preferred_chroma_downsampling_algorithm) {
                Some(a) => a,
                None => ChromaDownsamplingAlgorithm::Average,
            },
            r.preferred_chroma_upsampling_algorithm == match ChromaUpsamplingAlgorithm::spec_n(self@.preferred_chroma_upsampling_algorithm) {
                Some(a) => a,
                None => ChromaUpsamplingAlgorithm::Bilinear,
            },
            r.only_use_preferred_chroma_algorithm == (self@.only_use_preferred_chroma_algorithm != 0),
    {
        let down = match ChromaDownsamplingAlgorithm::n(self.rec.preferred_chroma_downsampling_algorithm) {
            Some(a) => a,
            None => ChromaDownsamplingAlgorithm::Average,
        };
        let up = match ChromaUpsamplingAlgorithm::n(self.rec.preferred_chroma_upsampling_algorithm) {
            Some(a) => a,
            None => ChromaUpsamplingAlgorithm::Bilinear,
        };
        ColorConversionOptions {
            preferred_chroma_downsampling_algorithm: down,
            preferred_chroma_upsampling_algorithm: up,
            only_use_preferred_chroma_algorithm: self.rec.only_use_preferred_chroma_algorithm != 0,
        }
    }

    pub fn set_color_conversion_options(&mut self, options: ColorConversionOptions)
        ensures
            final(self)@ == (EncodingOptionsRecord {
                preferred_chroma_downsampling_algorithm: options.preferred_chroma_downsampling_algorithm.spec_raw(),
                preferred_chroma_upsampling_algorithm: options.preferred_chroma_upsampling_algorithm.spec_raw(),
                only_use_preferred_chroma_algorithm: if options.only_use_preferred_chroma_algorithm { 1u8 } else { 0u8 },
                ..old(self)@
            }),
    {
        self.rec.preferred_chroma_downsampling_algorithm = options.preferred_chroma_downsampling_algorithm.raw();
        self.rec.preferred_chroma_upsampling_algorithm = options.preferred_chroma_upsampling_algorithm.raw();
        self.rec.only_use_preferred_chroma_algorithm = if options.only_use_preferred_chroma_algorithm { 1 } else { 0 };
    }
}

} // verus!
