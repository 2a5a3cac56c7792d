//! Errors of the HEIF codec interface.
use vstd::prelude::*;

verus! {

/// Kind of a codec error.
#[derive(Debug, Copy, Clone, PartialEq, Eq, Structural)]
pub enum HeifErrorCode {
    InputDoesNotExist,
    InvalidInput,
    UnsupportedFileType,
    UnsupportedFeature,
    UsageError,
    MemoryAllocationError,
    DecoderPluginError,
    EncoderPluginError,
    EncodingError,
    ColorProfileDoesNotExist,
    PluginLoadingError,
    ContextCreateFailed,
    /// Used when the codec gives an error code that has no variant.
    Unknown,
}

impl HeifErrorCode {
    /// The value that stands for this variant in the codec's interface.
    pub open spec fn spec_raw(self) -> u32 {
        match self {
            HeifErrorCode::InputDoesNotExist => 1,
            HeifErrorCode::InvalidInput => 2,
            HeifErrorCode::UnsupportedFileType => 3,
            HeifErrorCode::UnsupportedFeature => 4,
            HeifErrorCode::UsageError => 5,
            HeifErrorCode::MemoryAllocationError => 6,
            HeifErrorCode::DecoderPluginError => 7,
            HeifErrorCode::EncoderPluginError => 8,
            HeifErrorCode::EncodingError => 9,
            HeifErrorCode::ColorProfileDoesNotExist => 10,
            HeifErrorCode::PluginLoadingError => 11,
            HeifErrorCode::ContextCreateFailed => 12,
            HeifErrorCode::Unknown => 13,
        }
    }

    /// The variant that the codec's value `v` stands for, if any.
    pub open spec fn spec_n(v: u32) -> Option<HeifErrorCode> {
        if v == 1 {
            Some(HeifErrorCode::InputDoesNotExist)
        } else if v == 2 {
            Some(HeifErrorCode::InvalidInput)
        } else if v == 3 {
            Some(HeifErrorCode::UnsupportedFileType)
        } else if v == 4 {
            Some(HeifErrorCode::UnsupportedFeature)
        } else if v == 5 {
            Some(HeifErrorCode::UsageError)
        } else if v == 6 {
            Some(HeifErrorCode::MemoryAllocationError)
        } else if v == 7 {
            Some(HeifErrorCode::DecoderPluginError)
        } else if v == 8 {
            Some(HeifErrorCode::EncoderPluginError)
        } else if v == 9 {
            Some(HeifErrorCode::EncodingError)
        } else if v == 10 {
            Some(HeifErrorCode::ColorProfileDoesNotExist)
        } else if v == 11 {
            Some(HeifErrorCode::PluginLoadingError)
        } else if v == 12 {
            Some(HeifErrorCode::ContextCreateFailed)
        } else if v == 13 {
            Some(HeifErrorCode::Unknown)
        } else {
            None
        }
    }

    /// The value that stands for this variant in the codec's interface.
    pub fn raw(self) -> (r: u32)
        ensures
            r == self.spec_raw(),
    {
        match self {
            HeifErrorCode::InputDoesNotExist => 1,
            HeifErrorCode::InvalidInput => 2,
            HeifErrorCode::UnsupportedFileType => 3,
            HeifErrorCode::UnsupportedFeature => 4,
            HeifErrorCode::UsageError => 5,
            HeifErrorCode::MemoryAllocationError => 6,
            HeifErrorCode::DecoderPluginError => 7,
            HeifErrorCode::EncoderPluginError => 8,
            HeifErrorCode::EncodingError => 9,
            HeifErrorCode::ColorProfileDoesNotExist => 10,
            HeifErrorCode::PluginLoadingError => 11,
            HeifErrorCode::ContextCreateFailed => 12,
            HeifErrorCode::Unknown => 13,
        }
    }

    /// The variant that the codec's value `v` stands for, if any.
    pub fn n(v: u32) -> (r: Option<HeifErrorCode>)
        ensures
            r == HeifErrorCode::spec_n(v),
    {
        if v == 1 {
            Some(HeifErrorCode::InputDoesNotExist)
        } else if v == 2 {
            Some(HeifErrorCode::InvalidInput)
        } else if v == 3 {
            Some(HeifErrorCode::UnsupportedFileType)
        } else if v == 4 {
            Some(HeifErrorCode::UnsupportedFeature)
        } else if v == 5 {
            Some(HeifErrorCode::UsageError)
        } else if v == 6 {
            Some(HeifErrorCode::MemoryAllocationError)
        } else if v == 7 {
            Some(HeifErrorCode::DecoderPluginError)
        } else if v == 8 {
            Some(HeifErrorCode::EncoderPluginError)
        } else if v == 9 {
            Some(HeifErrorCode::EncodingError)
        } else if v == 10 {
            Some(HeifErrorCode::ColorProfileDoesNotExist)
        } else if v == 11 {
            Some(HeifErrorCode::PluginLoadingError)
        } else if v == 12 {
            Some(HeifErrorCode::ContextCreateFailed)
        } else if v == 13 {
            Some(HeifErrorCode::Unknown)
        } else {
            None
        }
    }
}

/// Detail of a codec error.
#[derive(Debug, Copy, Clone, PartialEq, Eq, Structural)]
pub enum HeifErrorSubCode {
    Unspecified,
    EndOfData,
    InvalidBoxSize,
    NoFtypBox,
    NoIdatBox,
    NoMetaBox,
    NoHdlrBox,
    NoHvccBox,
    NoPitmBox,
    NoIpcoBox,
    NoIpmaBox,
    NoIlocBox,
    NoIinfBox,
    NoIprpBox,
    NoIrefBox,
    NoPictHandler,
    IpmaBoxReferencesNonExistingProperty,
    NoPropertiesAssignedToItem,
    NoItemData,
    InvalidGridData,
    MissingGridImages,
    InvalidCleanAperture,
    InvalidOverlayData,
    OverlayImageOutsideOfCanvas,
    AuxiliaryImageTypeUnspecified,
    NoOrInvalidPrimaryItem,
    NoInfeBox,
    UnknownColorProfileType,
    WrongTileImageChromaFormat,
    InvalidFractionalNumber,
    InvalidImageSize,
    InvalidPixiBox,
    NoAv1cBox,
    WrongTileImagePixelDepth,
    SecurityLimitExceeded,
    NonExistingItemReferenced,
    NullPointerArgument,
    NonExistingImageChannelReferenced,
    UnsupportedPluginVersion,
    UnsupportedWriterVersion,
    UnsupportedParameter,
    InvalidParameterValue,
    UnsupportedCodec,
    UnsupportedImageType,
    UnsupportedDataVersion,
    UnsupportedColorConversion,
    UnsupportedItemConstructionMethod,
    UnsupportedBitDepth,
    CannotWriteOutputData,
    UnknownNclxColorPrimaries,
    UnknownNclxTransferCharacteristics,
    UnknownNclxMatrixCoefficients,
    UnsupportedHeaderCompressionMethod,
    PluginLoadingError,
    PluginIsNotLoaded,
    CannotReadPluginDirectory,
    InvalidRegionData,
    InvalidProperty,
    ItemReferenceCycle,
    EncoderInitialization,
    EncoderEncoding,
    EncoderCleanup,
    TooManyRegions,
    /// Used when the codec gives a sub-code that has no variant.
    Unknown,
}

/// A codec error.
#[derive(Debug, Clone)]
pub struct HeifError {
    pub code: HeifErrorCode,
    pub sub_code: HeifErrorSubCode,
    pub message: String,
}

impl HeifError {
    /// The result of a codec call that reported error `code` (0 meaning success),
    /// with the given detail and message.
    pub fn from_heif_error(code: u32, sub_code: HeifErrorSubCode, message: String) -> (r: Result<(), HeifError>)
        ensures
            code == 0 <==> r is Ok,
            r is Err ==> r->Err_0.code == match HeifErrorCode::spec_n(code) {
                Some(c) => c,
                None => HeifErrorCode::Unknown,
            } && r->Err_0.sub_code == sub_code && r->Err_0.message == message,
    {
        if code == 0 {
            return Ok(());
        }
        let c = match HeifErrorCode::n(code) {
            Some(c) => c,
            None => HeifErrorCode::Unknown,
        };
        Err(HeifError { code: c, sub_code, message })
    }
}

} // verus!
