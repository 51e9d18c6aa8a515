//! From a format tag and tuning options to an encoder configuration.

use vstd::prelude::*;
use crate::error::{CompressError, CompressErrorView};
use crate::options::{CompressionOptions, OptionsView};
use crate::text::same_text;

verus! {

/// The three formats that can be written.
#[derive(Debug, Clone, Copy, PartialEq, Eq, Structural)]
pub enum OutputFormat {
    Jpeg,
    Png,
    WebP,
}

/// What an encoder is set up with, one variant per output format.
///
/// A field that is `None` is left to the encoder's own default.
#[derive(Debug, Clone, Copy, PartialEq, Eq)]
pub enum EncoderConfig {
    Jpeg { quality: u8 },
    Png { filter: Option<u8>, compression: Option<u8> },
    WebP { quality: u8, alpha_quality: Option<u8> },
}

/// The format that a tag stands for: `jpg` and `jpeg` for JPEG, `png`,
/// `webp`; the match is exact and case-sensitive.
pub open spec fn format_of(tag: Seq<char>) -> Option<OutputFormat> {
    if tag == "jpg"@ || tag == "jpeg"@ {
        Some(OutputFormat::Jpeg)
    } else if tag == "png"@ {
        Some(OutputFormat::Png)
    } else if tag == "webp"@ {
        Some(OutputFormat::WebP)
    } else {
        None
    }
}

/// The file extension written for a format.
pub open spec fn extension_of(format: OutputFormat) -> Seq<char> {
    match format {
        OutputFormat::Jpeg => "jpg"@,
        OutputFormat::Png => "png"@,
        OutputFormat::WebP => "webp"@,
    }
}

/// The file extension written for a format tag.
pub open spec fn extension_for(tag: Seq<char>) -> Option<Seq<char>> {
    match format_of(tag) {
        Some(format) => Some(extension_of(format)),
        None => None,
    }
}

/// The encoder configuration that the options ask for.
pub open spec fn encoder_for(options: OptionsView) -> Result<EncoderConfig, CompressErrorView> {
    match format_of(options.format) {
        Some(OutputFormat::Jpeg) => Ok(EncoderConfig::Jpeg { quality: options.quality }),
        Some(OutputFormat::Png) => Ok(
            EncoderConfig::Png { filter: options.filter, compression: options.compression },
        ),
        Some(OutputFormat::WebP) => Ok(
            EncoderConfig::WebP { quality: options.quality, alpha_quality: options.alpha_quality },
        ),
        None => Err(CompressErrorView::UnsupportedFormat { tag: options.format }),
    }
}

impl OutputFormat {
    /// Reads a format tag.
    pub fn from_tag(tag: &str) -> (format: Option<OutputFormat>)
        ensures
            format == format_of(tag@),
    {
        if same_text(tag, "jpg") || same_text(tag, "jpeg") {
            Some(OutputFormat::Jpeg)
        } else if same_text(tag, "png") {
            Some(OutputFormat::Png)
        } else if same_text(tag, "webp") {
            Some(OutputFormat::WebP)
        } else {
            None
        }
    }

    /// The file extension written for this format.
    pub fn extension(self) -> (ext: &'static str)
        ensures
            ext@ == extension_of(self),
    {
        match self {
            OutputFormat::Jpeg => "jpg",
            OutputFormat::Png => "png",
            OutputFormat::WebP => "webp",
        }
    }
}

impl EncoderConfig {
    /// The format that this configuration encodes to.
    pub open spec fn spec_format(self) -> OutputFormat {
        match self {
            EncoderConfig::Jpeg { .. } => OutputFormat::Jpeg,
            EncoderConfig::Png { .. } => OutputFormat::Png,
            EncoderConfig::WebP { .. } => OutputFormat::WebP,
        }
    }

    /// The format that this configuration encodes to.
    #[verifier::when_used_as_spec(spec_format)]
    pub fn format(self) -> (format: OutputFormat)
        ensures
            format == self.spec_format(),
    {
        match self {
            EncoderConfig::Jpeg { .. } => OutputFormat::Jpeg,
            EncoderConfig::Png { .. } => OutputFormat::Png,
            EncoderConfig::WebP { .. } => OutputFormat::WebP,
        }
    }
}

/// The file extension for a format tag, `None` for a tag that names no
/// supported format.
pub fn target_extension(tag: &str) -> (ext: Option<&'static str>)
    ensures
        match ext {
            Some(text) => extension_for(tag@) == Some(text@),
            None => extension_for(tag@).is_none(),
        },
{
    match OutputFormat::from_tag(tag) {
        Some(format) => Some(format.extension()),
        None => None,
    }
}

/// Selects the encoder for the options' format tag and hands it the fields
/// that the format reads.
///
/// Fails with `UnsupportedFormat`, carrying the tag, exactly when the tag is
/// none of `jpg`, `jpeg`, `png`, `webp`.
pub fn select_encoder(options: &CompressionOptions) -> (selected: Result<
    EncoderConfig,
    CompressError,
>)
    ensures
        selected is Ok <==> format_of(options@.format) is Some,
        match selected {
            Ok(encoder) => encoder_for(options@) == Ok::<EncoderConfig, CompressErrorView>(encoder),
            Err(error) => encoder_for(options@) == Err::<EncoderConfig, CompressErrorView>(error@),
        },
{
    match OutputFormat::from_tag(options.format.as_str()) {
        Some(OutputFormat::Jpeg) => Ok(EncoderConfig::Jpeg { quality: options.quality }),
        Some(OutputFormat::Png) => Ok(
            EncoderConfig::Png { filter: options.filter, compression: options.compression },
        ),
        Some(OutputFormat::WebP) => Ok(
            EncoderConfig::WebP { quality: options.quality, alpha_quality: options.alpha_quality },
        ),
        None => Err(CompressError::UnsupportedFormat { tag: options.format.clone() }),
    }
}

/// The four tags `jpg`, `jpeg`, `png` and `webp`, and no other, select an
/// encoder, each the variant of its format with the fields that the format
/// reads; any other tag fails with `UnsupportedFormat`, carrying the tag.
pub proof fn lemma_supported_tags(options: OptionsView)
    ensures
        encoder_for(options) is Ok <==> (options.format == "jpg"@ || options.format == "jpeg"@
            || options.format == "png"@ || options.format == "webp"@),
        options.format == "jpg"@ || options.format == "jpeg"@ ==> encoder_for(options) == Ok::<
            EncoderConfig,
            CompressErrorView,
        >(EncoderConfig::Jpeg { quality: options.quality }),
        options.format == "png"@ ==> encoder_for(options) == Ok::<EncoderConfig, CompressErrorView>(
            EncoderConfig::Png { filter: options.filter, compression: options.compression },
        ),
        options.format == "webp"@ ==> encoder_for(options) == Ok::<EncoderConfig, CompressErrorView>(
            EncoderConfig::WebP { quality: options.quality, alpha_quality: options.alpha_quality },
        ),
        encoder_for(options) is Err ==> encoder_for(options) == Err::<
            EncoderConfig,
            CompressErrorView,
        >(CompressErrorView::UnsupportedFormat { tag: options.format }),
{
    reveal_strlit("jpg");
    reveal_strlit("jpeg");
    reveal_strlit("png");
    reveal_strlit("webp");
    assert("jpg"@[0] == 'j' && "png"@[0] == 'p' && "webp"@[0] == 'w' && "jpeg"@[0] == 'j');
}

/// `jpg` and `jpeg` are one format: for the same quality they select the
/// same encoder, whatever the other fields hold.
pub proof fn lemma_jpg_is_jpeg(a: OptionsView, b: OptionsView)
    requires
        a.format == "jpg"@,
        b.format == "jpeg"@,
        a.quality == b.quality,
    ensures
        encoder_for(a) == encoder_for(b),
        encoder_for(a) == Ok::<EncoderConfig, CompressErrorView>(
            EncoderConfig::Jpeg { quality: a.quality },
        ),
{
}

/// A tag has a file extension exactly if it selects an encoder, and the
/// extension is that of the encoder's format.
pub proof fn lemma_extension_goes_with_encoder(options: OptionsView)
    ensures
        extension_for(options.format) is Some <==> encoder_for(options) is Ok,
        encoder_for(options) matches Ok(encoder) ==> extension_for(options.format) == Some(
            extension_of(encoder.format()),
        ),
{
}

} // verus!
