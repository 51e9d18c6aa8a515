//! The tuning options that come with a compression request.

use vstd::prelude::*;

verus! {

/// Tuning parameters of one compression request.
///
/// `quality` is read by the JPEG and WebP encoders, `alpha_quality` by WebP
/// only, `filter` and `compression` by PNG only. A field that the requested
/// format does not use is ignored, never validated.
#[derive(Debug, Clone, PartialEq, Eq)]
pub struct CompressionOptions {
    pub format: String,
    pub quality: u8,
    pub alpha_quality: Option<u8>,
    pub filter: Option<u8>,
    pub compression: Option<u8>,
}

/// The mathematical content of [`CompressionOptions`].
pub struct OptionsView {
    pub format: Seq<char>,
    pub quality: u8,
    pub alpha_quality: Option<u8>,
    pub filter: Option<u8>,
    pub compression: Option<u8>,
}

impl View for CompressionOptions {
    type V = OptionsView;

    open spec fn view(&self) -> OptionsView {
        OptionsView {
            format: self.format@,
            quality: self.quality,
            alpha_quality: self.alpha_quality,
            filter: self.filter,
            compression: self.compression,
        }
    }
}

impl CompressionOptions {
    /// A copy with the same content.
    pub fn duplicate(&self) -> (copy: CompressionOptions)
        ensures
            copy == *self,
    {
        CompressionOptions {
            format: self.format.clone(),
            quality: self.quality,
            alpha_quality: self.alpha_quality,
            filter: self.filter,
            compression: self.compression,
        }
    }
}

} // verus!
