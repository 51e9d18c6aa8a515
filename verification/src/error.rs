//! What can go wrong, and how it is worded.

use vstd::prelude::*;

verus! {

/// Which part of a source path was being read.
#[derive(Debug, Clone, Copy, PartialEq, Eq, Structural)]
pub enum NamePart {
    FileName,
    Stem,
}

/// Why a compression, or a whole batch, failed.
#[derive(Debug, Clone, PartialEq, Eq)]
pub enum CompressError {
    /// The format tag is none of `jpg`, `jpeg`, `png`, `webp`.
    UnsupportedFormat { tag: String },
    /// The source at `path` could not be opened or decoded.
    LoadError { path: String, detail: String },
    /// Encoding to JPEG, or writing the file at `path`, failed.
    JpegEncodeError { path: String, detail: String },
    /// Encoding to PNG, or writing the file at `path`, failed.
    PngEncodeError { path: String, detail: String },
    /// Encoding to WebP, or writing the file at `path`, failed.
    WebpEncodeError { path: String, detail: String },
    /// The source path has no final segment.
    MissingFileName,
    /// The file name has no stem.
    MissingStem,
    /// The named part of the path is not valid text.
    InvalidEncoding { part: NamePart },
}

/// The mathematical content of [`CompressError`].
pub enum CompressErrorView {
    UnsupportedFormat { tag: Seq<char> },
    LoadError { path: Seq<char>, detail: Seq<char> },
    JpegEncodeError { path: Seq<char>, detail: Seq<char> },
    PngEncodeError { path: Seq<char>, detail: Seq<char> },
    WebpEncodeError { path: Seq<char>, detail: Seq<char> },
    MissingFileName,
    MissingStem,
    InvalidEncoding { part: NamePart },
}

impl View for CompressError {
    type V = CompressErrorView;

    open spec fn view(&self) -> CompressErrorView {
        match self {
            CompressError::UnsupportedFormat { tag } => CompressErrorView::UnsupportedFormat {
                tag: tag@,
            },
            CompressError::LoadError { path, detail } => CompressErrorView::LoadError {
                path: path@,
                detail: detail@,
            },
            CompressError::JpegEncodeError { path, detail } => CompressErrorView::JpegEncodeError {
                path: path@,
                detail: detail@,
            },
            CompressError::PngEncodeError { path, detail } => CompressErrorView::PngEncodeError {
                path: path@,
                detail: detail@,
            },
            CompressError::WebpEncodeError { path, detail } => CompressErrorView::WebpEncodeError {
                path: path@,
                detail: detail@,
            },
            CompressError::MissingFileName => CompressErrorView::MissingFileName,
            CompressError::MissingStem => CompressErrorView::MissingStem,
            CompressError::InvalidEncoding { part } => CompressErrorView::InvalidEncoding {
                part: *part,
            },
        }
    }
}

/// A lead, the path that the error is about, and the diagnostic:
/// `{lead}{path} - {detail}`.
pub open spec fn about_path(lead: Seq<char>, path: Seq<char>, detail: Seq<char>) -> Seq<char> {
    lead + path + " - "@ + detail
}

/// The text shown for an error. It holds what the error carries: the
/// offending tag, or the offending path and the diagnostic.
pub open spec fn message_of(error: CompressErrorView) -> Seq<char> {
    match error {
        CompressErrorView::UnsupportedFormat { tag } => "不支持的图片格式: "@ + tag,
        CompressErrorView::LoadError { path, detail } => about_path("无法打开图片: "@, path, detail),
        CompressErrorView::JpegEncodeError { path, detail } => about_path(
            "保存JPEG图片失败: "@,
            path,
            detail,
        ),
        CompressErrorView::PngEncodeError { path, detail } => about_path(
            "保存PNG图片失败: "@,
            path,
            detail,
        ),
        CompressErrorView::WebpEncodeError { path, detail } => about_path(
            "保存WebP图片失败: "@,
            path,
            detail,
        ),
        CompressErrorView::MissingFileName => "无法获取文件名"@,
        CompressErrorView::MissingStem => "无法获取文件名主体部分"@,
        CompressErrorView::InvalidEncoding { part } => match part {
            NamePart::FileName => "文件名不是有效的UTF-8"@,
            NamePart::Stem => "文件名主体不是有效的UTF-8"@,
        },
    }
}

/// The mathematical content of a result that carries text or an error.
pub open spec fn outcome_view(outcome: Result<String, CompressError>) -> Result<
    Seq<char>,
    CompressErrorView,
> {
    match outcome {
        Ok(text) => Ok(text@),
        Err(error) => Err(error@),
    }
}

/// `{lead}{path} - {detail}`, as a new string.
fn text_about_path(lead: &str, path: &str, detail: &str) -> (text: String)
    ensures
        text@ == about_path(lead@, path@, detail@),
{
    String::from_str(lead).concat(path).concat(" - ").concat(detail)
}

impl CompressError {
    /// The text shown for this error.
    pub fn message(&self) -> (text: String)
        ensures
            text@ == message_of(self@),
    {
        match self {
            CompressError::UnsupportedFormat { tag } => String::from_str(
                "不支持的图片格式: ",
            ).concat(tag.as_str()),
            CompressError::LoadError { path, detail } => text_about_path(
                "无法打开图片: ",
                path.as_str(),
                detail.as_str(),
            ),
            CompressError::JpegEncodeError { path, detail } => text_about_path(
                "保存JPEG图片失败: ",
                path.as_str(),
                detail.as_str(),
            ),
            CompressError::PngEncodeError { path, detail } => text_about_path(
                "保存PNG图片失败: ",
                path.as_str(),
                detail.as_str(),
            ),
            CompressError::WebpEncodeError { path, detail } => text_about_path(
                "保存WebP图片失败: ",
                path.as_str(),
                detail.as_str(),
            ),
            CompressError::MissingFileName => String::from_str("无法获取文件名"),
            CompressError::MissingStem => String::from_str("无法获取文件名主体部分"),
            CompressError::InvalidEncoding { part } => match part {
                NamePart::FileName => String::from_str("文件名不是有效的UTF-8"),
                NamePart::Stem => String::from_str("文件名主体不是有效的UTF-8"),
            },
        }
    }

    /// A copy with the same content.
    pub fn duplicate(&self) -> (copy: CompressError)
        ensures
            copy == *self,
    {
        match self {
            CompressError::UnsupportedFormat { tag } => CompressError::UnsupportedFormat {
                tag: tag.clone(),
            },
            CompressError::LoadError { path, detail } => CompressError::LoadError {
                path: path.clone(),
                detail: detail.clone(),
            },
            CompressError::JpegEncodeError { path, detail } => CompressError::JpegEncodeError {
                path: path.clone(),
                detail: detail.clone(),
            },
            CompressError::PngEncodeError { path, detail } => CompressError::PngEncodeError {
                path: path.clone(),
                detail: detail.clone(),
            },
            CompressError::WebpEncodeError { path, detail } => CompressError::WebpEncodeError {
                path: path.clone(),
                detail: detail.clone(),
            },
            CompressError::MissingFileName => CompressError::MissingFileName,
            CompressError::MissingStem => CompressError::MissingStem,
            CompressError::InvalidEncoding { part } => CompressError::InvalidEncoding {
                part: *part,
            },
        }
    }
}

} // verus!
