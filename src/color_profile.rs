//! The NCLX color profile (ITU-T H.273 code points) of the HEIF codec interface.
use vstd::prelude::*;

verus! {

/// Color primaries (ITU-T H.273).
#[allow(non_camel_case_types)]
#[derive(Debug, Copy, Clone, PartialEq, Eq, Hash, Structural)]
pub enum ColorPrimaries {
    Unspecified,
    ITU_R_BT_470_6_System_M,
    ITU_R_BT_470_6_System_B_G,
    ITU_R_BT_601_6,
    ITU_R_BT_709_5,
    ITU_R_BT_2020_2_and_2100_0,
    GenericFilm,
    SMPTE_240M,
    SMPTE_ST_428_1,
    SMPTE_RP_431_2,
    SMPTE_EG_432_1,
    EBU_Tech_3213_E,
    /// Used when the codec gives a value that has no variant.
    Unknown,
}

impl ColorPrimaries {
    /// The value that stands for this variant in the codec's interface.
    pub open spec fn spec_raw(self) -> u32 {
        match self {
            ColorPrimaries::Unspecified => 2,
            ColorPrimaries::ITU_R_BT_470_6_System_M => 4,
            ColorPrimaries::ITU_R_BT_470_6_System_B_G => 5,
            ColorPrimaries::ITU_R_BT_601_6 => 6,
            ColorPrimaries::ITU_R_BT_709_5 => 1,
            ColorPrimaries::ITU_R_BT_2020_2_and_2100_0 => 9,
            ColorPrimaries::GenericFilm => 8,
            ColorPrimaries::SMPTE_240M => 7,
            ColorPrimaries::SMPTE_ST_428_1 => 10,
            ColorPrimaries::SMPTE_RP_431_2 => 11,
            ColorPrimaries::SMPTE_EG_432_1 => 12,
            ColorPrimaries::EBU_Tech_3213_E => 22,
            ColorPrimaries::Unknown => 23,
        }
    }

    /// The variant that the codec's value `v` stands for, if any.
    pub open spec fn spec_n(v: u32) -> Option<ColorPrimaries> {
        if v == 2 {
            Some(ColorPrimaries::Unspecified)
        } else if v == 4 {
            Some(ColorPrimaries::ITU_R_BT_470_6_System_M)
        } else if v == 5 {
            Some(ColorPrimaries::ITU_R_BT_470_6_System_B_G)
        } else if v == 6 {
            Some(ColorPrimaries::ITU_R_BT_601_6)
        } else if v == 1 {
            Some(ColorPrimaries::ITU_R_BT_709_5)
        } else if v == 9 {
            Some(ColorPrimaries::ITU_R_BT_2020_2_and_2100_0)
        } else if v == 8 {
            Some(ColorPrimaries::GenericFilm)
        } else if v == 7 {
            Some(ColorPrimaries::SMPTE_240M)
        } else if v == 10 {
            Some(ColorPrimaries::SMPTE_ST_428_1)
        } else if v == 11 {
            Some(ColorPrimaries::SMPTE_RP_431_2)
        } else if v == 12 {
            Some(ColorPrimaries::SMPTE_EG_432_1)
        } else if v == 22 {
            Some(ColorPrimaries::EBU_Tech_3213_E)
        } else if v == 23 {
            Some(ColorPrimaries::Unknown)
        } else {
            None
        }
    }

    /// The value that stands for this variant in the codec's interface.
    pub fn raw(self) -> (r: u32)
        ensures
            r == self.spec_raw(),
    {
        match self {
            ColorPrimaries::Unspecified => 2,
            ColorPrimaries::ITU_R_BT_470_6_System_M => 4,
            ColorPrimaries::ITU_R_BT_470_6_System_B_G => 5,
            ColorPrimaries::ITU_R_BT_601_6 => 6,
            ColorPrimaries::ITU_R_BT_709_5 => 1,
            ColorPrimaries::ITU_R_BT_2020_2_and_2100_0 => 9,
            ColorPrimaries::GenericFilm => 8,
            ColorPrimaries::SMPTE_240M => 7,
            ColorPrimaries::SMPTE_ST_428_1 => 10,
            ColorPrimaries::SMPTE_RP_431_2 => 11,
            ColorPrimaries::SMPTE_EG_432_1 => 12,
            ColorPrimaries::EBU_Tech_3213_E => 22,
            ColorPrimaries::Unknown => 23,
        }
    }

    /// The variant that the codec's value `v` stands for, if any.
    pub fn n(v: u32) -> (r: Option<ColorPrimaries>)
        ensures
            r == ColorPrimaries::spec_n(v),
    {
        if v == 2 {
            Some(ColorPrimaries::Unspecified)
        } else if v == 4 {
            Some(ColorPrimaries::ITU_R_BT_470_6_System_M)
        } else if v == 5 {
            Some(ColorPrimaries::ITU_R_BT_470_6_System_B_G)
        } else if v == 6 {
            Some(ColorPrimaries::ITU_R_BT_601_6)
        } else if v == 1 {
            Some(ColorPrimaries::ITU_R_BT_709_5)
        } else if v == 9 {
            Some(ColorPrimaries::ITU_R_BT_2020_2_and_2100_0)
        } else if v == 8 {
            Some(ColorPrimaries::GenericFilm)
        } else if v == 7 {
            Some(ColorPrimaries::SMPTE_240M)
        } else if v == 10 {
            Some(ColorPrimaries::SMPTE_ST_428_1)
        } else if v == 11 {
            Some(ColorPrimaries::SMPTE_RP_431_2)
        } else if v == 12 {
            Some(ColorPrimaries::SMPTE_EG_432_1)
        } else if v == 22 {
            Some(ColorPrimaries::EBU_Tech_3213_E)
        } else if v == 23 {
            Some(ColorPrimaries::Unknown)
        } else {
            None
        }
    }
}

/// Transfer characteristics (ITU-T H.273).
#[allow(non_camel_case_types)]
#[derive(Debug, Copy, Clone, PartialEq, Eq, Hash, Structural)]
pub enum TransferCharacteristics {
    ITU_R_BT_709_5,
    Unspecified,
    ITU_R_BT_470_6_System_M,
    ITU_R_BT_470_6_System_B_G,
    ITU_R_BT_601_6,
    SMPTE_240M,
    Linear,
    Logarithmic100,
    Logarithmic100Sqrt10,
    IEC_61966_2_4,
    ITU_R_BT_1361,
    IEC_61966_2_1,
    ITU_R_BT_2020_2_10bit,
    ITU_R_BT_2020_2_12bit,
    ITU_R_BT_2100_0_PQ,
    SMPTE_ST_428_1,
    ITU_R_BT_2100_0_HLG,
    /// Used when the codec gives a value that has no variant.
    Unknown,
}

impl TransferCharacteristics {
    /// The value that stands for this variant in the codec's interface.
    pub open spec fn spec_raw(self) -> u32 {
        match self {
            TransferCharacteristics::ITU_R_BT_709_5 => 1,
            TransferCharacteristics::Unspecified => 2,
            TransferCharacteristics::ITU_R_BT_470_6_System_M => 4,
            TransferCharacteristics::ITU_R_BT_470_6_System_B_G => 5,
            TransferCharacteristics::ITU_R_BT_601_6 => 6,
            TransferCharacteristics::SMPTE_240M => 7,
            TransferCharacteristics::Linear => 8,
            TransferCharacteristics::Logarithmic100 => 9,
            TransferCharacteristics::Logarithmic100Sqrt10 => 10,
            TransferCharacteristics::IEC_61966_2_4 => 11,
            TransferCharacteristics::ITU_R_BT_1361 => 12,
            TransferCharacteristics::IEC_61966_2_1 => 13,
            TransferCharacteristics::ITU_R_BT_2020_2_10bit => 14,
            TransferCharacteristics::ITU_R_BT_2020_2_12bit => 15,
            TransferCharacteristics::ITU_R_BT_2100_0_PQ => 16,
            TransferCharacteristics::SMPTE_ST_428_1 => 17,
            TransferCharacteristics::ITU_R_BT_2100_0_HLG => 18,
            TransferCharacteristics::Unknown => 19,
        }
    }

    /// The variant that the codec's value `v` stands for, if any.
    pub open spec fn spec_n(v: u32) -> Option<TransferCharacteristics> {
        if v == 1 {
            Some(TransferCharacteristics::ITU_R_BT_709_5)
        } else if v == 2 {
            Some(TransferCharacteristics::Unspecified)
        } else if v == 4 {
            Some(TransferCharacteristics::ITU_R_BT_470_6_System_M)
        } else if v == 5 {
            Some(TransferCharacteristics::ITU_R_BT_470_6_System_B_G)
        } else if v == 6 {
            Some(TransferCharacteristics::ITU_R_BT_601_6)
        } else if v == 7 {
            Some(TransferCharacteristics::SMPTE_240M)
        } else if v == 8 {
            Some(TransferCharacteristics::Linear)
        } else if v == 9 {
            Some(TransferCharacteristics::Logarithmic100)
        } else if v == 10 {
            Some(TransferCharacteristics::Logarithmic100Sqrt10)
        } else if v == 11 {
            Some(TransferCharacteristics::IEC_61966_2_4)
        } else if v == 12 {
            Some(TransferCharacteristics::ITU_R_BT_1361)
        } else if v == 13 {
            Some(TransferCharacteristics::IEC_61966_2_1)
        } else if v == 14 {
            Some(TransferCharacteristics::ITU_R_BT_2020_2_10bit)
        } else if v == 15 {
            Some(TransferCharacteristics::ITU_R_BT_2020_2_12bit)
        } else if v == 16 {
            Some(TransferCharacteristics::ITU_R_BT_2100_0_PQ)
        } else if v == 17 {
            Some(TransferCharacteristics::SMPTE_ST_428_1)
        } else if v == 18 {
            Some(TransferCharacteristics::ITU_R_BT_2100_0_HLG)
        } else if v == 19 {
            Some(TransferCharacteristics::Unknown)
        } else {
            None
        }
    }

    /// The value that stands for this variant in the codec's interface.
    pub fn raw(self) -> (r: u32)
        ensures
            r == self.spec_raw(),
    {
        match self {
            TransferCharacteristics::ITU_R_BT_709_5 => 1,
            TransferCharacteristics::Unspecified => 2,
            TransferCharacteristics::ITU_R_BT_470_6_System_M => 4,
            TransferCharacteristics::ITU_R_BT_470_6_System_B_G => 5,
            TransferCharacteristics::ITU_R_BT_601_6 => 6,
            TransferCharacteristics::SMPTE_240M => 7,
            TransferCharacteristics::Linear => 8,
            TransferCharacteristics::Logarithmic100 => 9,
            TransferCharacteristics::Logarithmic100Sqrt10 => 10,
            TransferCharacteristics::IEC_61966_2_4 => 11,
            TransferCharacteristics::ITU_R_BT_1361 => 12,
            TransferCharacteristics::IEC_61966_2_1 => 13,
            TransferCharacteristics::ITU_R_BT_2020_2_10bit => 14,
            TransferCharacteristics::ITU_R_BT_2020_2_12bit => 15,
            TransferCharacteristics::ITU_R_BT_2100_0_PQ => 16,
            TransferCharacteristics::SMPTE_ST_428_1 => 17,
            TransferCharacteristics::ITU_R_BT_2100_0_HLG => 18,
            TransferCharacteristics::Unknown => 19,
        }
    }

    /// The variant that the codec's value `v` stands for, if any.
    pub fn n(v: u32) -> (r: Option<TransferCharacteristics>)
        ensures
            r == TransferCharacteristics::spec_n(v),
    {
        if v == 1 {
            Some(TransferCharacteristics::ITU_R_BT_709_5)
        } else if v == 2 {
            Some(TransferCharacteristics::Unspecified)
        } else if v == 4 {
            Some(TransferCharacteristics::ITU_R_BT_470_6_System_M)
        } else if v == 5 {
            Some(TransferCharacteristics::ITU_R_BT_470_6_System_B_G)
        } else if v == 6 {
            Some(TransferCharacteristics::ITU_R_BT_601_6)
        } else if v == 7 {
            Some(TransferCharacteristics::SMPTE_240M)
        } else if v == 8 {
            Some(TransferCharacteristics::Linear)
        } else if v == 9 {
            Some(TransferCharacteristics::Logarithmic100)
        } else if v == 10 {
            Some(TransferCharacteristics::Logarithmic100Sqrt10)
        } else if v == 11 {
            Some(TransferCharacteristics::IEC_61966_2_4)
        } else if v == 12 {
            Some(TransferCharacteristics::ITU_R_BT_1361)
        } else if v == 13 {
            Some(TransferCharacteristics::IEC_61966_2_1)
        } else if v == 14 {
            Some(TransferCharacteristics::ITU_R_BT_2020_2_10bit)
        } else if v == 15 {
            Some(TransferCharacteristics::ITU_R_BT_2020_2_12bit)
        } else if v == 16 {
            Some(TransferCharacteristics::ITU_R_BT_2100_0_PQ)
        } else if v == 17 {
            Some(TransferCharacteristics::SMPTE_ST_428_1)
        } else if v == 18 {
            Some(TransferCharacteristics::ITU_R_BT_2100_0_HLG)
        } else if v == 19 {
            Some(TransferCharacteristics::Unknown)
        } else {
            None
        }
    }
}

/// Matrix coefficients (ITU-T H.273).
#[allow(non_camel_case_types)]
#[derive(Debug, Copy, Clone, PartialEq, Eq, Hash, Structural)]
pub enum MatrixCoefficients {
    RGB_GBR,
    ITU_R_BT_709_5,
    Unspecified,
    US_FCC_T47,
    ITU_R_BT_470_6_System_B_G,
    ITU_R_BT_601_6,
    SMPTE_240M,
    YCgCo,
    ITU_R_BT_2020_2_NonConstantLuminance,
    ITU_R_BT_2020_2_ConstantLuminance,
    SMPTE_ST_2085,
    ChromaticityDerivedNonConstantLuminance,
    ChromaticityDerivedConstantLuminance,
    ICtCp,
    /// Used when the codec gives a value that has no variant.
    Unknown,
}

impl MatrixCoefficients {
    /// The value that stands for this variant in the codec's interface.
    pub open spec fn spec_raw(self) -> u32 {
        match self {
            MatrixCoefficients::RGB_GBR => 0,
            MatrixCoefficients::ITU_R_BT_709_5 => 1,
            MatrixCoefficients::Unspecified => 2,
            MatrixCoefficients::US_FCC_T47 => 4,
            MatrixCoefficients::ITU_R_BT_470_6_System_B_G => 5,
            MatrixCoefficients::ITU_R_BT_601_6 => 6,
            MatrixCoefficients::SMPTE_240M => 7,
            MatrixCoefficients::YCgCo => 8,
            MatrixCoefficients::ITU_R_BT_2020_2_NonConstantLuminance => 9,
            MatrixCoefficients::ITU_R_BT_2020_2_ConstantLuminance => 10,
            MatrixCoefficients::SMPTE_ST_2085 => 11,
            MatrixCoefficients::ChromaticityDerivedNonConstantLuminance => 12,
            MatrixCoefficients::ChromaticityDerivedConstantLuminance => 13,
            MatrixCoefficients::ICtCp => 14,
            MatrixCoefficients::Unknown => 15,
        }
    }

    /// The variant that the codec's value `v` stands for, if any.
    pub open spec fn spec_n(v: u32) -> Option<MatrixCoefficients> {
        if v == 0 {
            Some(MatrixCoefficients::RGB_GBR)
        } else if v == 1 {
            Some(MatrixCoefficients::ITU_R_BT_709_5)
        } else if v == 2 {
            Some(MatrixCoefficients::Unspecified)
        } else if v == 4 {
            Some(MatrixCoefficients::US_FCC_T47)
        } else if v == 5 {
            Some(MatrixCoefficients::ITU_R_BT_470_6_System_B_G)
        } else if v == 6 {
            Some(MatrixCoefficients::ITU_R_BT_601_6)
        } else if v == 7 {
            Some(MatrixCoefficients::SMPTE_240M)
        } else if v == 8 {
            Some(MatrixCoefficients::YCgCo)
        } else if v == 9 {
            Some(MatrixCoefficients::ITU_R_BT_2020_2_NonConstantLuminance)
        } else if v == 10 {
            Some(MatrixCoefficients::ITU_R_BT_2020_2_ConstantLuminance)
        } else if v == 11 {
            Some(MatrixCoefficients::SMPTE_ST_2085)
        } else if v == 12 {
            Some(MatrixCoefficients::ChromaticityDerivedNonConstantLuminance)
        } else if v == 13 {
            Some(MatrixCoefficients::ChromaticityDerivedConstantLuminance)
        } else if v == 14 {
            Some(MatrixCoefficients::ICtCp)
        } else if v == 15 {
            Some(MatrixCoefficients::Unknown)
        } else {
            None
        }
    }

    /// The value that stands for this variant in the codec's interface.
    pub fn raw(self) -> (r: u32)
        ensures
            r == self.spec_raw(),
    {
        match self {
            MatrixCoefficients::RGB_GBR => 0,
            MatrixCoefficients::ITU_R_BT_709_5 => 1,
            MatrixCoefficients::Unspecified => 2,
            MatrixCoefficients::US_FCC_T47 => 4,
            MatrixCoefficients::ITU_R_BT_470_6_System_B_G => 5,
            MatrixCoefficients::ITU_R_BT_601_6 => 6,
            MatrixCoefficients::SMPTE_240M => 7,
            MatrixCoefficients::YCgCo => 8,
            MatrixCoefficients::ITU_R_BT_2020_2_NonConstantLuminance => 9,
            MatrixCoefficients::ITU_R_BT_2020_2_ConstantLuminance => 10,
            MatrixCoefficients::SMPTE_ST_2085 => 11,
            MatrixCoefficients::ChromaticityDerivedNonConstantLuminance => 12,
            MatrixCoefficients::ChromaticityDerivedConstantLuminance => 13,
            MatrixCoefficients::ICtCp => 14,
            MatrixCoefficients::Unknown => 15,
        }
    }

    /// The variant that the codec's value `v` stands for, if any.
    pub fn n(v: u32) -> (r: Option<MatrixCoefficients>)
        ensures
            r == MatrixCoefficients::spec_n(v),
    {
        if v == 0 {
            Some(MatrixCoefficients::RGB_GBR)
        } else if v == 1 {
            Some(MatrixCoefficients::ITU_R_BT_709_5)
        } else if v == 2 {
            Some(MatrixCoefficients::Unspecified)
        } else if v == 4 {
            Some(MatrixCoefficients::US_FCC_T47)
        } else if v == 5 {
            Some(MatrixCoefficients::ITU_R_BT_470_6_System_B_G)
        } else if v == 6 {
            Some(MatrixCoefficients::ITU_R_BT_601_6)
        } else if v == 7 {
            Some(MatrixCoefficients::SMPTE_240M)
        } else if v == 8 {
            Some(MatrixCoefficients::YCgCo)
        } else if v == 9 {
            Some(MatrixCoefficients::ITU_R_BT_2020_2_NonConstantLuminance)
        } else if v == 10 {
            Some(MatrixCoefficients::ITU_R_BT_2020_2_ConstantLuminance)
        } else if v == 11 {
            Some(MatrixCoefficients::SMPTE_ST_2085)
        } else if v == 12 {
            Some(MatrixCoefficients::ChromaticityDerivedNonConstantLuminance)
        } else if v == 13 {
            Some(MatrixCoefficients::ChromaticityDerivedConstantLuminance)
        } else if v == 14 {
            Some(MatrixCoefficients::ICtCp)
        } else if v == 15 {
            Some(MatrixCoefficients::Unknown)
        } else {
            None
        }
    }
}

/// An NCLX color profile: the codec's record, as plain values.
pub struct ColorProfileNCLX {
    version: u8,
    color_primaries: u32,
    transfer_characteristics: u32,
    matrix_coefficients: u32,
    full_range_flag: u8,
}

impl ColorProfileNCLX {
    pub closed spec fn raw_version(&self) -> u8 {
        self.version
    }

    pub closed spec fn raw_color_primaries(&self) -> u32 {
        self.color_primaries
    }

    pub closed spec fn raw_transfer_characteristics(&self) -> u32 {
        self.transfer_characteristics
    }

    pub closed spec fn raw_matrix_coefficients(&self) -> u32 {
        self.matrix_coefficients
    }

    pub closed spec fn raw_full_range_flag(&self) -> u8 {
        self.full_range_flag
    }

    /// A profile holding the codec's values as given.
    pub fn from_raw(
        version: u8,
        color_primaries: u32,
        transfer_characteristics: u32,
        matrix_coefficients: u32,
        full_range_flag: u8,
    ) -> (p: Self)
        ensures
            p.raw_version() == version,
            p.raw_color_primaries() == color_primaries,
            p.raw_transfer_characteristics() == transfer_characteristics,
            p.raw_matrix_coefficients() == matrix_coefficients,
            p.raw_full_range_flag() == full_range_flag,
    {
        ColorProfileNCLX { version, color_primaries, transfer_characteristics, matrix_coefficients, full_range_flag }
    }

    pub fn version(&self) -> (r: u8)
        ensures
            r == self.raw_version(),
    {
        self.version
    }

    /// The color primaries; `Unknown` for a value that names none.
    pub fn color_primaries(&self) -> (r: ColorPrimaries)
        ensures
            r == match ColorPrimaries::spec_n(self.raw_color_primaries()) {
                Some(c) => c,
                None => ColorPrimaries::Unknown,
            },
    {
        match ColorPrimaries::n(self.color_primaries) {
            Some(c) => c,
            None => ColorPrimaries::Unknown,
        }
    }

    /// Sets the color primaries; `Unknown` leaves them as they are.
    pub fn set_color_primaries(&mut self, v: ColorPrimaries)
        ensures
            final(self).raw_color_primaries() == if v == ColorPrimaries::Unknown {
                old(self).raw_color_primaries()
            } else {
                v.spec_raw()
            },
            final(self).raw_version() == old(self).raw_version(),
            final(self).raw_transfer_characteristics() == old(self).raw_transfer_characteristics(),
            final(self).raw_matrix_coefficients() == old(self).raw_matrix_coefficients(),
            final(self).raw_full_range_flag() == old(self).raw_full_range_flag(),
    {
        if v != ColorPrimaries::Unknown {
            self.color_primaries = v.raw();
        }
    }

    /// The transfer characteristics; `Unknown` for a value that names none.
    pub fn transfer_characteristics(&self) -> (r: TransferCharacteristics)
        ensures
            r == match TransferCharacteristics::spec_n(self.raw_transfer_characteristics()) {
                Some(c) => c,
                None => TransferCharacteristics::Unknown,
            },
    {
        match TransferCharacteristics::n(self.transfer_characteristics) {
            Some(c) => c,
            None => TransferCharacteristics::Unknown,
        }
    }

    /// The matrix coefficients; `Unknown` for a value that names none.
    pub fn matrix_coefficients(&self) -> (r: MatrixCoefficients)
        ensures
            r == match MatrixCoefficients::spec_n(self.raw_matrix_coefficients()) {
                Some(c) => c,
                None => MatrixCoefficients::Unknown,
            },
    {
        match MatrixCoefficients::n(self.matrix_coefficients) {
            Some(c) => c,
            None => MatrixCoefficients::Unknown,
        }
    }

    pub fn full_range_flag(&self) -> (r: u8)
        ensures
            r == self.raw_full_range_flag(),
    {
        self.full_range_flag
    }
}

} // verus!
