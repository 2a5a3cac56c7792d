//! Decoder settings of the HEIF codec interface, as plain values.
use vstd::prelude::*;
use crate::encoding::ColorConversionOptions;
use crate::heif_enums::{ChromaDownsamplingAlgorithm, ChromaUpsamplingAlgorithm};
use crate::heif_error::{HeifError, HeifErrorCode, HeifErrorSubCode};
use crate::keys::key_bytes;

verus! {

/// The codec's record of decoding options, field by field.
pub struct DecodingOptionsRecord {
    pub version: u8,
    pub ignore_transformations: u8,
    pub convert_hdr_to_8bit: u8,
    pub strict_decoding: u8,
    pub decoder_id: Option<Seq<char>>,
    pub preferred_chroma_downsampling_algorithm: u32,
    pub preferred_chroma_upsampling_algorithm: u32,
    pub only_use_preferred_chroma_algorithm: u8,
}

/// Version of the decoding options record.
pub const DECODING_OPTIONS_VERSION: u8 = 5;

/// The codec's defaults for decoding options.
pub open spec fn default_decoding_record() -> DecodingOptionsRecord {
    DecodingOptionsRecord {
        version: DECODING_OPTIONS_VERSION,
        ignore_transformations: 0,
        convert_hdr_to_8bit: 0,
        strict_decoding: 0,
        decoder_id: None,
        preferred_chroma_downsampling_algorithm: 2,
        preferred_chroma_upsampling_algorithm: 2,
        only_use_preferred_chroma_algorithm: 0,
    }
}

/// Message of the error for a decoder ID that holds a zero byte.
pub const NUL_IN_DECODER_ID: &'static str = "Invalid value of 'decoder_id': it holds a zero byte";

/// Whether the bytes of `s` include a zero byte, which a C string cannot hold.
pub fn has_zero_byte(s: &str) -> (r: bool)
    ensures
        r == key_bytes(s@).contains(0u8),
{
    let b = s.as_bytes();
    let mut i: usize = 0;
    while i < b.len()
        invariant
            b@ == key_bytes(s@),
            i <= b@.len(),
            forall|j: int| 0 <= j < i ==> b@[j] != 0u8,
        decreases b@.len() - i,
    {
        if b[i] == 0 {
            proof {
                assert(b@[i as int] == 0u8);
            }
            return true;
        }
        i = i + 1;
    }
    false
}

/// Options for decoding an image.
pub struct DecodingOptions {
    version: u8,
    ignore_transformations: u8,
    convert_hdr_to_8bit: u8,
    strict_decoding: u8,
    decoder_id: Option<String>,
    preferred_chroma_downsampling_algorithm: u32,
    preferred_chroma_upsampling_algorithm: u32,
    only_use_preferred_chroma_algorithm: u8,
}

impl View for DecodingOptions {
    type V = DecodingOptionsRecord;

    closed spec fn view(&self) -> DecodingOptionsRecord {
        DecodingOptionsRecord {
            version: self.version,
            ignore_transformations: self.ignore_transformations,
            convert_hdr_to_8bit: self.convert_hdr_to_8bit,
            strict_decoding: self.strict_decoding,
            decoder_id: match self.decoder_id {
                Some(s) => Some(s@),
                None => None,
            },
            preferred_chroma_downsampling_algorithm: self.preferred_chroma_downsampling_algorithm,
            preferred_chroma_upsampling_algorithm: self.preferred_chroma_upsampling_algorithm,
            only_use_preferred_chroma_algorithm: self.only_use_preferred_chroma_algorithm,
        }
    }
}

impl DecodingOptions {
    /// Options with the codec's defaults: transformations applied, no conversion of
    /// HDR to 8 bits, non-strict decoding, the highest-priority decoder.
    pub fn new() -> (r: Option<Self>)
        ensures
            r is Some,
            r->0@ == default_decoding_record(),
    {
        Some(DecodingOptions {
            version: DECODING_OPTIONS_VERSION,
            ignore_transformations: 0,
            convert_hdr_to_8bit: 0,
            strict_decoding: 0,
            decoder_id: None,
            preferred_chroma_downsampling_algorithm: 2,
            preferred_chroma_upsampling_algorithm: 2,
            only_use_preferred_chroma_algorithm: 0,
        })
    }

    pub fn version(&self) -> (r: u8)
        ensures
            r == self@.version,
    {
        self.version
    }

    pub fn ignore_transformations(&self) -> (r: bool)
        ensures
            r == (self@.ignore_transformations != 0),
    {
        self.ignore_transformations != 0
    }

    pub fn set_ignore_transformations(&mut self, enable: bool)
        ensures
            final(self)@ == (DecodingOptionsRecord { ignore_transformations: if enable { 1u8 } else { 0u8 }, ..old(self)@ }),
    {
        self.ignore_transformations = if enable { 1 } else { 0 };
    }

    pub fn convert_hdr_to_8bit(&self) -> (r: bool)
        ensures
            r == (self@.convert_hdr_to_8bit != 0),
    {
        self.convert_hdr_to_8bit != 0
    }

    pub fn set_convert_hdr_to_8bit(&mut self, enable: bool)
        ensures
            final(self)@ == (DecodingOptionsRecord { convert_hdr_to_8bit: if enable { 1u8 } else { 0u8 }, ..old(self)@ }),
    {
        self.convert_hdr_to_8bit = if enable { 1 } else { 0 };
    }

    /// When strict decoding is enabled, an error is returned for invalid input.
    /// Otherwise, the decoder does its best and reports warnings. Default is non-strict.
    pub fn strict_decoding(&self) -> (r: bool)
        ensures
            r == (self@.strict_decoding != 0),
    {
        self.strict_decoding != 0
    }

    pub fn set_strict_decoding(&mut self, enable: bool)
        ensures
            final(self)@ == (DecodingOptionsRecord { strict_decoding: if enable { 1u8 } else { 0u8 }, ..old(self)@ }),
    {
        self.strict_decoding = if enable { 1 } else { 0 };
    }

    /// ID of the decoder to use; `None` (the default) picks the highest-priority one.
    pub fn decoder_id(&self) -> (r: Option<&str>)
        ensures
            match r {
                Some(s) => self@.decoder_id == Some(s@),
                None => self@.decoder_id is None,
            },
    {
        match &self.decoder_id {
            Some(s) => Some(s.as_str()),
            None => None,
        }
    }

    /// Sets the decoder's ID. An ID holding a zero byte cannot be handed to the
    /// codec: it is refused with a usage error and the options stay as they were.
    pub fn set_decoder_id(&mut self, decoder_id: Option<&str>) -> (r: Result<(), HeifError>)
        ensures
            match decoder_id {
                Some(d) => if key_bytes(d@).contains(0u8) {
                    &&& r is Err
                    &&& r->Err_0.code == HeifErrorCode::UsageError
                    &&& r->Err_0.sub_code == HeifErrorSubCode::InvalidParameterValue
                    &&& r->Err_0.message@ == NUL_IN_DECODER_ID@
                    &&& final(self)@ == old(self)@
                } else {
                    r is Ok && final(self)@ == (DecodingOptionsRecord { decoder_id: Some(d@), ..old(self)@ })
                },
                None => r is Ok && final(self)@ == (DecodingOptionsRecord { decoder_id: None, ..old(self)@ }),
            },
    {
        match decoder_id {
            Some(d) => {
                if has_zero_byte(d) {
                    Err(HeifError {
                        code: HeifErrorCode::UsageError,
                        sub_code: HeifErrorSubCode::InvalidParameterValue,
                        message: NUL_IN_DECODER_ID.to_owned(),
                    })
                } else {
                    self.decoder_id = Some(d.to_owned());
                    Ok(())
                }
            },
            None => {
                self.decoder_id = None;
                Ok(())
            },
        }
    }

    /// The chroma conversion options; a value that names no algorithm reads as
    /// `Average` (downsampling) or `Bilinear` (upsampling).
    pub fn color_conversion_options(&self) -> (r: ColorConversionOptions)
        ensures
            r.preferred_chroma_downsampling_algorithm == match ChromaDownsamplingAlgorithm::spec_n(self@.preferred_chroma_downsampling_algorithm) {
                Some(a) => a,
                None => ChromaDownsamplingAlgorithm::Average,
            },
            r.preferred_chroma_upsampling_algorithm == match ChromaUpsamplingAlgorithm::spec_n(self@.preferred_chroma_upsampling_algorithm) {
                Some(a) => a,
                None => ChromaUpsamplingAlgorithm::Bilinear,
            },
            r.only_use_preferred_chroma_algorithm == (self@.only_use_preferred_chroma_algorithm != 0),
    {
        let down = match ChromaDownsamplingAlgorithm::n(self.preferred_chroma_downsampling_algorithm) {
            Some(a) => a,
            None => ChromaDownsamplingAlgorithm::Average,
        };
        let up = match ChromaUpsamplingAlgorithm::n(self.preferred_chroma_upsampling_algorithm) {
            Some(a) => a,
            None => ChromaUpsamplingAlgorithm::Bilinear,
        };
        ColorConversionOptions {
            preferred_chroma_downsampling_algorithm: down,
            preferred_chroma_upsampling_algorithm: up,
            only_use_preferred_chroma_algorithm: self.only_use_preferred_chroma_algorithm != 0,
        }
    }

    pub fn set_color_conversion_options(&mut self, options: ColorConversionOptions)
        ensures
            final(self)@ == (DecodingOptionsRecord {
                preferred_chroma_downsampling_algorithm: options.preferred_chroma_downsampling_algorithm.spec_raw(),
                preferred_chroma_upsampling_algorithm: options.preferred_chroma_upsampling_algorithm.spec_raw(),
                only_use_preferred_chroma_algorithm: if options.only_use_preferred_chroma_algorithm { 1u8 } else { 0u8 },
                ..old(self)@
            }),
    {
        self.preferred_chroma_downsampling_algorithm = options.preferred_chroma_downsampling_algorithm.raw();
        self.preferred_chroma_upsampling_algorithm = options.preferred_chroma_upsampling_algorithm.raw();
        self.only_use_preferred_chroma_algorithm = if options.only_use_preferred_chroma_algorithm { 1 } else { 0 };
    }
}

} // verus!
