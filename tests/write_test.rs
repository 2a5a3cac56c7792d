use clip_search::encoding::{ColorConversionOptions, CompressionFormat, EncodingOptions};
use clip_search::heif_enums::{ChromaDownsamplingAlgorithm, ChromaUpsamplingAlgorithm, ImageOrientation};
use clip_search::heif_error::HeifError;

type Result<T> = std::result::Result<T, HeifError>;

#[test]
fn test_encoding_options() -> Result<()> {
    let enc_options = EncodingOptions::new().unwrap();
    assert!(enc_options.version() >= 5);
    // Test defaults
    assert!(enc_options.save_alpha_channel());
    assert!(!enc_options.mac_os_compatibility_workaround());
    assert!(enc_options.mac_os_compatibility_workaround_no_nclx_profile());
    assert!(!enc_options.save_two_colr_boxes_when_icc_and_nclx_available());
    assert_eq!(enc_options.image_orientation(), ImageOrientation::Normal);
    let color_options = enc_options.color_conversion_options();
    assert_eq!(
        color_options.preferred_chroma_downsampling_algorithm,
        ChromaDownsamplingAlgorithm::Average
    );
    assert_eq!(
        color_options.preferred_chroma_upsampling_algorithm,
        ChromaUpsamplingAlgorithm::Bilinear
    );
    assert!(!color_options.only_use_preferred_chroma_algorithm);

    Ok(())
}

#[test]
fn encoding_options_setters_are_read_back() {
    let mut o = EncodingOptions::new().unwrap();
    o.set_save_alpha_channel(false);
    o.set_mac_os_compatibility_workaround(true);
    o.set_save_two_colr_boxes_when_icc_and_nclx_available(true);
    o.set_mac_os_compatibility_workaround_no_nclx_profile(false);
    o.set_image_orientation(ImageOrientation::Rotate270Cw);
    o.set_color_conversion_options(ColorConversionOptions {
        preferred_chroma_downsampling_algorithm: ChromaDownsamplingAlgorithm::SharpYuv,
        preferred_chroma_upsampling_algorithm: ChromaUpsamplingAlgorithm::NearestNeighbor,
        only_use_preferred_chroma_algorithm: true,
    });
    assert!(!o.save_alpha_channel());
    assert!(o.mac_os_compatibility_workaround());
    assert!(o.save_two_colr_boxes_when_icc_and_nclx_available());
    assert!(!o.mac_os_compatibility_workaround_no_nclx_profile());
    assert_eq!(o.image_orientation(), ImageOrientation::Rotate270Cw);
    let c = o.color_conversion_options();
    assert_eq!(c.preferred_chroma_downsampling_algorithm, ChromaDownsamplingAlgorithm::SharpYuv);
    assert_eq!(c.preferred_chroma_upsampling_algorithm, ChromaUpsamplingAlgorithm::NearestNeighbor);
    assert!(c.only_use_preferred_chroma_algorithm);
    assert_eq!(o.version(), 6);
}

#[test]
fn unknown_orientation_is_kept() {
    let mut o = EncodingOptions::new().unwrap();
    o.set_image_orientation(ImageOrientation::Unknown);
    assert_eq!(o.image_orientation(), ImageOrientation::Unknown);
}

#[test]
fn compression_format_codes() {
    assert_eq!(CompressionFormat::n(1), Some(CompressionFormat::Hevc));
    assert_eq!(CompressionFormat::n(4), Some(CompressionFormat::Av1));
    assert_eq!(CompressionFormat::n(9), None);
    assert_eq!(CompressionFormat::Uncompressed.raw(), 8);
}
