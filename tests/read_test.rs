use clip_search::decoding::{has_zero_byte, DecodingOptions};
use clip_search::heif_enums::{ChromaDownsamplingAlgorithm, ChromaUpsamplingAlgorithm};
use clip_search::heif_error::{HeifError, HeifErrorCode, HeifErrorSubCode};

type Result<T> = std::result::Result<T, HeifError>;

#[test]
fn test_decoding_options() -> Result<()> {
    let mut dec_options = DecodingOptions::new().unwrap();
    assert!(dec_options.version() >= 5);
    // Test defaults
    assert!(!dec_options.ignore_transformations());
    assert!(!dec_options.convert_hdr_to_8bit());
    assert!(!dec_options.strict_decoding());
    assert!(dec_options.decoder_id().is_none());
    let color_options = dec_options.color_conversion_options();
    assert_eq!(
        color_options.preferred_chroma_downsampling_algorithm,
        ChromaDownsamplingAlgorithm::Average
    );
    assert_eq!(
        color_options.preferred_chroma_upsampling_algorithm,
        ChromaUpsamplingAlgorithm::Bilinear
    );
    assert!(!color_options.only_use_preferred_chroma_algorithm);

    dec_options.set_decoder_id(Some("heif")).unwrap();
    assert_eq!(dec_options.decoder_id(), Some("heif"));

    Ok(())
}

#[test]
fn decoder_id_with_zero_byte_is_refused() {
    let mut o = DecodingOptions::new().unwrap();
    o.set_decoder_id(Some("libde265")).unwrap();
    let e = o.set_decoder_id(Some("bad\0id")).unwrap_err();
    assert_eq!(e.code, HeifErrorCode::UsageError);
    assert_eq!(e.sub_code, HeifErrorSubCode::InvalidParameterValue);
    assert!(e.message.contains("decoder_id"));
    assert_eq!(o.decoder_id(), Some("libde265"));
    o.set_decoder_id(None).unwrap();
    assert_eq!(o.decoder_id(), None);
    assert!(has_zero_byte("a\0"));
    assert!(!has_zero_byte("abc"));
    assert!(!has_zero_byte(""));
}

#[test]
fn decoding_flags_are_read_back() {
    let mut o = DecodingOptions::new().unwrap();
    o.set_ignore_transformations(true);
    o.set_convert_hdr_to_8bit(true);
    o.set_strict_decoding(true);
    assert!(o.ignore_transformations());
    assert!(o.convert_hdr_to_8bit());
    assert!(o.strict_decoding());
    o.set_strict_decoding(false);
    assert!(!o.strict_decoding());
    assert!(o.ignore_transformations());
}
