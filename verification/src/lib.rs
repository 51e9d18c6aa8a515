//! Format dispatch and batch planning for an image compression service.
//!
//! The library decides and never touches a file. A driver does the file
//! work: it asks one of the two state machines here what to do next,
//! [`CompressJob`] for one image and [`BatchRun`] for a list of them, does
//! it, and reports back how it went.

pub mod text;
pub mod options;
pub mod error;
pub mod encoder;
pub mod path;
pub mod compress;
pub mod batch;

pub use batch::{report_line_for, BatchRun, BatchStep};
pub use compress::{encode_failure, CompressJob, CompressStep, Stage};
pub use encoder::{select_encoder, target_extension, EncoderConfig, OutputFormat};
pub use error::{CompressError, NamePart};
pub use options::CompressionOptions;
pub use path::{
    destination_path, join_destination, name_and_extension, place, required_text, PathPart,
};
