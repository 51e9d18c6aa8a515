use img_processor::text::same_text;
use img_processor::{
    select_encoder, target_extension, CompressError, CompressionOptions, EncoderConfig,
    OutputFormat,
};

fn options(format: &str) -> CompressionOptions {
    CompressionOptions {
        format: format.to_string(),
        quality: 80,
        alpha_quality: Some(90),
        filter: Some(3),
        compression: Some(6),
    }
}

#[test]
fn jpg_selects_the_jpeg_encoder_with_the_quality() {
    assert_eq!(select_encoder(&options("jpg")), Ok(EncoderConfig::Jpeg { quality: 80 }));
}

#[test]
fn jpeg_selects_the_jpeg_encoder_with_the_quality() {
    assert_eq!(select_encoder(&options("jpeg")), Ok(EncoderConfig::Jpeg { quality: 80 }));
}

#[test]
fn png_selects_the_png_encoder_with_filter_and_compression() {
    assert_eq!(
        select_encoder(&options("png")),
        Ok(EncoderConfig::Png { filter: Some(3), compression: Some(6) })
    );
}

#[test]
fn webp_selects_the_webp_encoder_with_both_qualities() {
    assert_eq!(
        select_encoder(&options("webp")),
        Ok(EncoderConfig::WebP { quality: 80, alpha_quality: Some(90) })
    );
}

#[test]
fn absent_fields_are_left_to_the_encoder() {
    let bare = |format: &str| CompressionOptions {
        format: format.to_string(),
        quality: 0,
        alpha_quality: None,
        filter: None,
        compression: None,
    };
    assert_eq!(
        select_encoder(&bare("png")),
        Ok(EncoderConfig::Png { filter: None, compression: None })
    );
    assert_eq!(
        select_encoder(&bare("webp")),
        Ok(EncoderConfig::WebP { quality: 0, alpha_quality: None })
    );
    assert_eq!(select_encoder(&bare("jpg")), Ok(EncoderConfig::Jpeg { quality: 0 }));
}

#[test]
fn jpg_and_jpeg_agree_whatever_the_other_fields_hold() {
    let a = CompressionOptions {
        format: "jpg".to_string(),
        quality: 55,
        alpha_quality: None,
        filter: Some(1),
        compression: None,
    };
    let b = CompressionOptions {
        format: "jpeg".to_string(),
        quality: 55,
        alpha_quality: Some(7),
        filter: None,
        compression: Some(9),
    };
    assert_eq!(select_encoder(&a), select_encoder(&b));
    assert_eq!(select_encoder(&a), Ok(EncoderConfig::Jpeg { quality: 55 }));
}

#[test]
fn fields_of_another_format_are_never_validated() {
    let odd = CompressionOptions {
        format: "jpg".to_string(),
        quality: 255,
        alpha_quality: Some(255),
        filter: Some(255),
        compression: Some(255),
    };
    assert_eq!(select_encoder(&odd), Ok(EncoderConfig::Jpeg { quality: 255 }));
}

#[test]
fn gif_is_unsupported_and_the_error_carries_the_tag() {
    assert_eq!(
        select_encoder(&options("gif")),
        Err(CompressError::UnsupportedFormat { tag: "gif".to_string() })
    );
}

#[test]
fn tags_are_matched_exactly_and_by_case() {
    for tag in ["JPG", "Jpeg", "PNG", "WebP", "", " jpg", "jpg ", "jpe", "jpegs", "bmp", "avif"] {
        assert_eq!(
            select_encoder(&options(tag)),
            Err(CompressError::UnsupportedFormat { tag: tag.to_string() }),
            "tag {tag:?}"
        );
        assert_eq!(OutputFormat::from_tag(tag), None, "tag {tag:?}");
        assert_eq!(target_extension(tag), None, "tag {tag:?}");
    }
}

#[test]
fn each_tag_has_its_extension() {
    assert_eq!(target_extension("jpg"), Some("jpg"));
    assert_eq!(target_extension("jpeg"), Some("jpg"));
    assert_eq!(target_extension("png"), Some("png"));
    assert_eq!(target_extension("webp"), Some("webp"));
}

#[test]
fn each_tag_has_its_format() {
    assert_eq!(OutputFormat::from_tag("jpg"), Some(OutputFormat::Jpeg));
    assert_eq!(OutputFormat::from_tag("jpeg"), Some(OutputFormat::Jpeg));
    assert_eq!(OutputFormat::from_tag("png"), Some(OutputFormat::Png));
    assert_eq!(OutputFormat::from_tag("webp"), Some(OutputFormat::WebP));
    assert_eq!(OutputFormat::Jpeg.extension(), "jpg");
    assert_eq!(OutputFormat::Png.extension(), "png");
    assert_eq!(OutputFormat::WebP.extension(), "webp");
}

#[test]
fn a_configuration_knows_its_format() {
    assert_eq!(EncoderConfig::Jpeg { quality: 1 }.format(), OutputFormat::Jpeg);
    assert_eq!(
        EncoderConfig::Png { filter: None, compression: None }.format(),
        OutputFormat::Png
    );
    assert_eq!(
        EncoderConfig::WebP { quality: 1, alpha_quality: None }.format(),
        OutputFormat::WebP
    );
}

#[test]
fn an_extension_exists_exactly_where_an_encoder_does() {
    for tag in ["jpg", "jpeg", "png", "webp", "gif", "", "JPEG"] {
        assert_eq!(target_extension(tag).is_some(), select_encoder(&options(tag)).is_ok());
    }
}

#[test]
fn same_text_compares_characters() {
    assert!(same_text("", ""));
    assert!(same_text("webp", "webp"));
    assert!(same_text("图片", "图片"));
    assert!(!same_text("webp", "web"));
    assert!(!same_text("web", "webp"));
    assert!(!same_text("jpg", "jpe"));
    assert!(!same_text("图片", "图像"));
    assert!(!same_text("a", ""));
}

#[test]
fn options_are_duplicated_field_by_field() {
    let original = options("webp");
    assert_eq!(original.duplicate(), original);
}
