use clip_search::color_profile::{ColorPrimaries, ColorProfileNCLX, MatrixCoefficients, TransferCharacteristics};
use clip_search::heif_enums::{Channel, Chroma, ColorSpace, FileTypeResult, ReaderGrowStatus, RgbChroma};
use clip_search::heif_error::{HeifError, HeifErrorCode, HeifErrorSubCode};
use clip_search::reader::StreamReader;

#[test]
fn color_space_from_codec_values() {
    assert_eq!(ColorSpace::from_libheif(99, 5), Some(ColorSpace::Undefined));
    assert_eq!(ColorSpace::from_libheif(2, 0), Some(ColorSpace::Monochrome));
    assert_eq!(ColorSpace::from_libheif(0, 1), Some(ColorSpace::YCbCr(Chroma::C420)));
    assert_eq!(ColorSpace::from_libheif(0, 10), None);
    assert_eq!(ColorSpace::from_libheif(1, 10), Some(ColorSpace::Rgb(RgbChroma::Rgb)));
    assert_eq!(ColorSpace::from_libheif(1, 15), Some(ColorSpace::Rgb(RgbChroma::HdrRgbaLe)));
    assert_eq!(ColorSpace::from_libheif(1, 1), None);
    assert_eq!(ColorSpace::from_libheif(7, 1), None);
}

#[test]
fn color_space_codec_values_round_trip() {
    let all = [
        ColorSpace::Undefined,
        ColorSpace::Monochrome,
        ColorSpace::YCbCr(Chroma::C420),
        ColorSpace::YCbCr(Chroma::C422),
        ColorSpace::YCbCr(Chroma::C444),
        ColorSpace::Rgb(RgbChroma::C444),
        ColorSpace::Rgb(RgbChroma::Rgb),
        ColorSpace::Rgb(RgbChroma::Rgba),
        ColorSpace::Rgb(RgbChroma::HdrRgbBe),
        ColorSpace::Rgb(RgbChroma::HdrRgbaBe),
        ColorSpace::Rgb(RgbChroma::HdrRgbLe),
        ColorSpace::Rgb(RgbChroma::HdrRgbaLe),
    ];
    for cs in all {
        assert_eq!(ColorSpace::from_libheif(cs.heif_color_space(), cs.heif_chroma()), Some(cs));
    }
    assert_eq!(ColorSpace::Rgb(RgbChroma::Rgba).heif_chroma(), 11);
    assert_eq!(ColorSpace::Monochrome.heif_color_space(), 2);
}

#[test]
fn channel_and_status_codes() {
    assert_eq!(Channel::Interleaved.raw(), 10);
    assert_eq!(Channel::Alpha.raw(), 6);
    assert_eq!(ReaderGrowStatus::SizeBeyondEof.raw(), 2);
    assert_eq!(FileTypeResult::n(3), Some(FileTypeResult::MayBe));
    assert_eq!(FileTypeResult::n(4), None);
}

#[test]
fn nclx_profile_reads_codes() {
    let p = ColorProfileNCLX::from_raw(1, 9, 16, 9, 1);
    assert_eq!(p.version(), 1);
    assert_eq!(p.color_primaries(), ColorPrimaries::ITU_R_BT_2020_2_and_2100_0);
    assert_eq!(p.transfer_characteristics(), TransferCharacteristics::ITU_R_BT_2100_0_PQ);
    assert_eq!(p.matrix_coefficients(), MatrixCoefficients::ITU_R_BT_2020_2_NonConstantLuminance);
    assert_eq!(p.full_range_flag(), 1);
    let q = ColorProfileNCLX::from_raw(1, 3, 3, 3, 0);
    assert_eq!(q.color_primaries(), ColorPrimaries::Unknown);
    assert_eq!(q.transfer_characteristics(), TransferCharacteristics::Unknown);
    assert_eq!(q.matrix_coefficients(), MatrixCoefficients::Unknown);
}

#[test]
fn nclx_set_primaries_ignores_unknown() {
    let mut p = ColorProfileNCLX::from_raw(1, 2, 2, 2, 1);
    p.set_color_primaries(ColorPrimaries::ITU_R_BT_709_5);
    assert_eq!(p.color_primaries(), ColorPrimaries::ITU_R_BT_709_5);
    p.set_color_primaries(ColorPrimaries::Unknown);
    assert_eq!(p.color_primaries(), ColorPrimaries::ITU_R_BT_709_5);
    assert_eq!(p.transfer_characteristics(), TransferCharacteristics::Unspecified);
}

#[test]
fn codec_error_codes() {
    assert!(HeifError::from_heif_error(0, HeifErrorSubCode::Unspecified, String::new()).is_ok());
    let e = HeifError::from_heif_error(3, HeifErrorSubCode::NoFtypBox, "bad".to_string()).unwrap_err();
    assert_eq!(e.code, HeifErrorCode::UnsupportedFileType);
    assert_eq!(e.sub_code, HeifErrorSubCode::NoFtypBox);
    assert_eq!(e.message, "bad");
    let e = HeifError::from_heif_error(999, HeifErrorSubCode::Unknown, String::new()).unwrap_err();
    assert_eq!(e.code, HeifErrorCode::Unknown);
}

#[test]
fn stream_reader_grow_status() {
    let r = StreamReader::new(Vec::<u8>::new(), 100);
    assert_eq!(r.total_size(), 100);
    assert_eq!(r.grow_status(true, 100), ReaderGrowStatus::SizeReached);
    assert_eq!(r.grow_status(true, 101), ReaderGrowStatus::SizeBeyondEof);
    assert_eq!(r.grow_status(false, 10), ReaderGrowStatus::Timeout);
}
