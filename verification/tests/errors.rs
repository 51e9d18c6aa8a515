use img_processor::{CompressError, NamePart};

#[test]
fn unsupported_format_message_holds_the_tag() {
    let error = CompressError::UnsupportedFormat { tag: "gif".to_string() };
    assert_eq!(error.message(), "不支持的图片格式: gif");
    let empty = CompressError::UnsupportedFormat { tag: String::new() };
    assert_eq!(empty.message(), "不支持的图片格式: ");
}

#[test]
fn load_error_message_holds_the_source_and_the_diagnostic() {
    let error = CompressError::LoadError {
        path: "in/a.bmp".to_string(),
        detail: "No such file or directory".to_string(),
    };
    assert_eq!(error.message(), "无法打开图片: in/a.bmp - No such file or directory");
}

#[test]
fn jpeg_encode_error_message_holds_the_destination_and_the_diagnostic() {
    let error = CompressError::JpegEncodeError {
        path: "out/a.jpg".to_string(),
        detail: "disk full".to_string(),
    };
    assert_eq!(error.message(), "保存JPEG图片失败: out/a.jpg - disk full");
}

#[test]
fn png_encode_error_message_holds_the_destination_and_the_diagnostic() {
    let error = CompressError::PngEncodeError {
        path: "out/a.png".to_string(),
        detail: "permission denied".to_string(),
    };
    assert_eq!(error.message(), "保存PNG图片失败: out/a.png - permission denied");
}

#[test]
fn webp_encode_error_message_holds_the_destination_and_the_diagnostic() {
    let error = CompressError::WebpEncodeError {
        path: "out/a.webp".to_string(),
        detail: String::new(),
    };
    assert_eq!(error.message(), "保存WebP图片失败: out/a.webp - ");
}

#[test]
fn path_errors_have_fixed_messages() {
    assert_eq!(CompressError::MissingFileName.message(), "无法获取文件名");
    assert_eq!(CompressError::MissingStem.message(), "无法获取文件名主体部分");
    assert_eq!(
        CompressError::InvalidEncoding { part: NamePart::FileName }.message(),
        "文件名不是有效的UTF-8"
    );
    assert_eq!(
        CompressError::InvalidEncoding { part: NamePart::Stem }.message(),
        "文件名主体不是有效的UTF-8"
    );
}

#[test]
fn an_error_is_duplicated_with_its_fields() {
    let errors = [
        CompressError::UnsupportedFormat { tag: "gif".to_string() },
        CompressError::LoadError { path: "a".to_string(), detail: "b".to_string() },
        CompressError::JpegEncodeError { path: "c".to_string(), detail: "d".to_string() },
        CompressError::PngEncodeError { path: "e".to_string(), detail: "f".to_string() },
        CompressError::WebpEncodeError { path: "g".to_string(), detail: "h".to_string() },
        CompressError::MissingFileName,
        CompressError::MissingStem,
        CompressError::InvalidEncoding { part: NamePart::Stem },
    ];
    for error in errors {
        assert_eq!(error.duplicate(), error);
    }
}
