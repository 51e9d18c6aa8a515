//! One image: load the source, resolve the format, encode and write.
//!
//! A [`CompressJob`] is a state machine that a driver runs: the driver asks
//! for the [`next_step`](CompressJob::next_step), does the file work that the
//! step names, and reports how it went with
//! [`advance`](CompressJob::advance). The job moves in one direction only,
//! from `NotStarted` over `FormatResolved` to `Done`, or drops out to
//! `Failed` on the way.
//!
//! The format tag is looked at before any file is: a job with an unsupported
//! tag is `Failed` from the start and never asks for file work.

use vstd::prelude::*;
use crate::encoder::{encoder_for, format_of, select_encoder, EncoderConfig, OutputFormat};
use crate::error::{CompressError, CompressErrorView};
use crate::options::{CompressionOptions, OptionsView};

verus! {

/// Where a job stands.
///
/// A job rests in these stages only. Between `NotStarted` and
/// `FormatResolved` it is loaded, and between `FormatResolved` and `Done`
/// its destination is written: both are passed within one call of
/// [`CompressJob::advance`].
#[derive(Debug, Clone, PartialEq, Eq)]
pub enum Stage {
    /// The format tag is a supported one and nothing else has been done;
    /// the source is to be loaded.
    NotStarted,
    /// The source is loaded and the encoder chosen; the destination is to
    /// be encoded and written.
    FormatResolved { encoder: EncoderConfig },
    /// The destination has been written.
    Done,
    /// The job was given up.
    Failed { reason: CompressError },
}

/// The mathematical content of [`Stage`].
pub enum StageView {
    NotStarted,
    FormatResolved { encoder: EncoderConfig },
    Done,
    Failed { reason: CompressErrorView },
}

impl View for Stage {
    type V = StageView;

    open spec fn view(&self) -> StageView {
        match self {
            Stage::NotStarted => StageView::NotStarted,
            Stage::FormatResolved { encoder } => StageView::FormatResolved { encoder: *encoder },
            Stage::Done => StageView::Done,
            Stage::Failed { reason } => StageView::Failed { reason: reason@ },
        }
    }
}

/// What the driver of a job is to do next.
#[derive(Debug, PartialEq, Eq)]
pub enum CompressStep {
    /// Open and fully decode the source at `path`.
    Load { path: String },
    /// Encode the loaded image with `encoder` and write it to `path`,
    /// creating or overwriting the file.
    EncodeAndWrite { path: String, encoder: EncoderConfig },
    /// Nothing more: hand `result` to the caller.
    Finished { result: Result<String, CompressError> },
}

/// The mathematical content of [`CompressStep`].
pub enum StepView {
    Load { path: Seq<char> },
    EncodeAndWrite { path: Seq<char>, encoder: EncoderConfig },
    Finished { result: Result<Seq<char>, CompressErrorView> },
}

impl View for CompressStep {
    type V = StepView;

    open spec fn view(&self) -> StepView {
        match self {
            CompressStep::Load { path } => StepView::Load { path: path@ },
            CompressStep::EncodeAndWrite { path, encoder } => StepView::EncodeAndWrite {
                path: path@,
                encoder: *encoder,
            },
            CompressStep::Finished { result } => StepView::Finished {
                result: match result {
                    Ok(text) => Ok(text@),
                    Err(error) => Err(error@),
                },
            },
        }
    }
}

/// The compression of one source into one destination.
#[derive(Debug, PartialEq, Eq)]
pub struct CompressJob {
    src_path: String,
    dest_path: String,
    options: CompressionOptions,
    stage: Stage,
}

/// The mathematical content of [`CompressJob`].
pub struct JobView {
    pub src_path: Seq<char>,
    pub dest_path: Seq<char>,
    pub options: OptionsView,
    pub stage: StageView,
}

/// How a piece of file work went: done, or failed with a diagnostic.
pub open spec fn io_view(outcome: Result<(), String>) -> Result<(), Seq<char>> {
    match outcome {
        Ok(_) => Ok(()),
        Err(detail) => Err(detail@),
    }
}

/// The confirmation that a finished compression returns.
pub open spec fn success_message() -> Seq<char> {
    "图片压缩成功"@
}

/// The error for a failure to encode to `format` or to write `path`.
pub open spec fn encode_error(
    format: OutputFormat,
    path: Seq<char>,
    detail: Seq<char>,
) -> CompressErrorView {
    match format {
        OutputFormat::Jpeg => CompressErrorView::JpegEncodeError { path, detail },
        OutputFormat::Png => CompressErrorView::PngEncodeError { path, detail },
        OutputFormat::WebP => CompressErrorView::WebpEncodeError { path, detail },
    }
}

/// A job on which no file work has been done. Its format tag has been
/// looked at: with an unsupported tag the job has failed already.
pub open spec fn fresh(src_path: Seq<char>, dest_path: Seq<char>, options: OptionsView) -> JobView {
    JobView {
        src_path,
        dest_path,
        options,
        stage: match encoder_for(options) {
            Ok(_) => StageView::NotStarted,
            Err(reason) => StageView::Failed { reason },
        },
    }
}

/// What a job in a given state asks of its driver.
pub open spec fn step_of(job: JobView) -> StepView {
    match job.stage {
        StageView::NotStarted => StepView::Load { path: job.src_path },
        StageView::FormatResolved { encoder } => StepView::EncodeAndWrite {
            path: job.dest_path,
            encoder,
        },
        StageView::Done => StepView::Finished { result: Ok(success_message()) },
        StageView::Failed { reason } => StepView::Finished { result: Err(reason) },
    }
}

/// The state of a job after its driver has reported `outcome` for the step
/// that the job asked for.
///
/// A loaded source has its format resolved at once: a job never rests
/// between the two. A finished job stays as it is.
pub open spec fn advanced(job: JobView, outcome: Result<(), Seq<char>>) -> JobView {
    let stage = match job.stage {
        StageView::NotStarted => match encoder_for(job.options) {
            Err(reason) => StageView::Failed { reason },
            Ok(encoder) => match outcome {
                Err(detail) => StageView::Failed {
                    reason: CompressErrorView::LoadError { path: job.src_path, detail },
                },
                Ok(_) => StageView::FormatResolved { encoder },
            },
        },
        StageView::FormatResolved { encoder } => match outcome {
            Ok(_) => StageView::Done,
            Err(detail) => StageView::Failed {
                reason: encode_error(encoder.format(), job.dest_path, detail),
            },
        },
        StageView::Done => StageView::Done,
        StageView::Failed { reason } => StageView::Failed { reason },
    };
    JobView { stage, ..job }
}

/// What holds of every job: one that is still to load its source has a
/// supported format tag, and an encoder that was resolved is the one that
/// the options select.
pub open spec fn job_wf(job: JobView) -> bool {
    match job.stage {
        StageView::NotStarted => encoder_for(job.options) is Ok,
        StageView::FormatResolved { encoder } => encoder_for(job.options) == Ok::<
            EncoderConfig,
            CompressErrorView,
        >(encoder),
        _ => true,
    }
}

/// What one compression returns, from how loading and writing go.
///
/// An unsupported format tag fails the job whatever the files hold; after
/// that a source that cannot be loaded fails it, and then a destination
/// that cannot be written.
pub open spec fn compression_result(
    src_path: Seq<char>,
    dest_path: Seq<char>,
    options: OptionsView,
    loaded: Result<(), Seq<char>>,
    written: Result<(), Seq<char>>,
) -> Result<Seq<char>, CompressErrorView> {
    match encoder_for(options) {
        Err(reason) => Err(reason),
        Ok(encoder) => match loaded {
            Err(detail) => Err(CompressErrorView::LoadError { path: src_path, detail }),
            Ok(_) => match written {
                Err(detail) => Err(encode_error(encoder.format(), dest_path, detail)),
                Ok(_) => Ok(success_message()),
            },
        },
    }
}

/// The error for a failure to encode to `format` or to write `path`.
pub fn encode_failure(format: OutputFormat, path: String, detail: String) -> (error: CompressError)
    ensures
        error@ == encode_error(format, path@, detail@),
{
    match format {
        OutputFormat::Jpeg => CompressError::JpegEncodeError { path, detail },
        OutputFormat::Png => CompressError::PngEncodeError { path, detail },
        OutputFormat::WebP => CompressError::WebpEncodeError { path, detail },
    }
}

impl View for CompressJob {
    type V = JobView;

    closed spec fn view(&self) -> JobView {
        JobView {
            src_path: self.src_path@,
            dest_path: self.dest_path@,
            options: self.options@,
            stage: self.stage@,
        }
    }
}

impl CompressJob {
    #[verifier::type_invariant]
    spec fn inv(&self) -> bool {
        job_wf(self@)
    }

    /// A job on which no file work has been done.
    ///
    /// The format tag is looked at here, before any file is: with an
    /// unsupported tag the job is `Failed` with `UnsupportedFormat` from the
    /// start.
    pub fn new(src_path: String, dest_path: String, options: CompressionOptions) -> (job:
        CompressJob)
        ensures
            job@ == fresh(src_path@, dest_path@, options@),
    {
        let stage = match select_encoder(&options) {
            Ok(_) => Stage::NotStarted,
            Err(reason) => Stage::Failed { reason },
        };
        CompressJob { src_path, dest_path, options, stage }
    }

    /// What the driver is to do next.
    pub fn next_step(&self) -> (step: CompressStep)
        ensures
            step@ == step_of(self@),
            job_wf(self@),
    {
        proof {
            use_type_invariant(self);
        }
        match &self.stage {
            Stage::NotStarted => CompressStep::Load { path: self.src_path.clone() },
            Stage::FormatResolved { encoder } => CompressStep::EncodeAndWrite {
                path: self.dest_path.clone(),
                encoder: *encoder,
            },
            Stage::Done => CompressStep::Finished { result: Ok(String::from_str("图片压缩成功")) },
            Stage::Failed { reason } => CompressStep::Finished { result: Err(reason.duplicate()) },
        }
    }

    /// Takes in how the step last asked for went.
    ///
    /// After a load that went well the encoder is resolved from the options
    /// and a write is asked for. On a finished job nothing changes.
    pub fn advance(&mut self, outcome: Result<(), String>)
        ensures
            final(self)@ == advanced(old(self)@, io_view(outcome)),
    {
        let stage = match &self.stage {
            Stage::NotStarted => match select_encoder(&self.options) {
                Err(reason) => Stage::Failed { reason },
                Ok(encoder) => match outcome {
                    Err(detail) => Stage::Failed {
                        reason: CompressError::LoadError { path: self.src_path.clone(), detail },
                    },
                    Ok(_) => Stage::FormatResolved { encoder },
                },
            },
            Stage::FormatResolved { encoder } => match outcome {
                Ok(_) => Stage::Done,
                Err(detail) => Stage::Failed {
                    reason: encode_failure(encoder.format(), self.dest_path.clone(), detail),
                },
            },
            Stage::Done => {
                return ;
            },
            Stage::Failed { .. } => {
                return ;
            },
        };
        self.stage = stage;
    }

    /// The source that the job reads.
    pub fn src_path(&self) -> (path: &str)
        ensures
            path@ == self@.src_path,
    {
        self.src_path.as_str()
    }

    /// The destination that the job writes.
    pub fn dest_path(&self) -> (path: &str)
        ensures
            path@ == self@.dest_path,
    {
        self.dest_path.as_str()
    }

    /// The options that the job was given.
    pub fn options(&self) -> (options: &CompressionOptions)
        ensures
            options@ == self@.options,
    {
        &self.options
    }

    /// Where the job stands.
    pub fn stage(&self) -> (stage: &Stage)
        ensures
            stage@ == self@.stage,
    {
        &self.stage
    }

    /// Whether the job has come to an end, well or badly.
    pub fn is_finished(&self) -> (finished: bool)
        ensures
            finished == (step_of(self@) is Finished),
    {
        match &self.stage {
            Stage::Done => true,
            Stage::Failed { .. } => true,
            _ => false,
        }
    }
}

/// The order of the stages. A job that has ended, well or badly, stands
/// last.
pub open spec fn stage_rank(stage: StageView) -> nat {
    match stage {
        StageView::NotStarted => 0,
        StageView::FormatResolved { .. } => 1,
        StageView::Done => 2,
        StageView::Failed { .. } => 2,
    }
}

/// A fresh job is well formed.
pub proof fn lemma_fresh_job_is_wf(src_path: Seq<char>, dest_path: Seq<char>, options: OptionsView)
    ensures
        job_wf(fresh(src_path, dest_path, options)),
{
}

/// Each outcome leaves a well-formed job well formed.
pub proof fn lemma_job_stays_wf(job: JobView, outcome: Result<(), Seq<char>>)
    requires
        job_wf(job),
    ensures
        job_wf(advanced(job, outcome)),
{
}

/// A job never goes back: each outcome moves an unfinished job to a later
/// stage and leaves a finished job as it is. Paths and options never change.
pub proof fn lemma_job_moves_forward(job: JobView, outcome: Result<(), Seq<char>>)
    ensures
        step_of(job) is Finished ==> advanced(job, outcome) == job,
        !(step_of(job) is Finished) ==> stage_rank(advanced(job, outcome).stage) > stage_rank(
            job.stage,
        ),
        advanced(job, outcome).src_path == job.src_path,
        advanced(job, outcome).dest_path == job.dest_path,
        advanced(job, outcome).options == job.options,
{
}

/// A fresh job ends after two outcomes at most, and then hands out the
/// compression result. With a supported format tag it asks for the source
/// to be loaded first, and for a write only after a load that went well,
/// with the encoder that the options select.
pub proof fn lemma_job_gives_result(
    src_path: Seq<char>,
    dest_path: Seq<char>,
    options: OptionsView,
    loaded: Result<(), Seq<char>>,
    written: Result<(), Seq<char>>,
)
    ensures
        ({
            let job = fresh(src_path, dest_path, options);
            let result = compression_result(src_path, dest_path, options, loaded, written);
            &&& step_of(advanced(advanced(job, loaded), written)) == StepView::Finished { result }
            &&& match step_of(job) {
                StepView::Load { path } => encoder_for(options) is Ok && path == src_path,
                StepView::EncodeAndWrite { .. } => false,
                StepView::Finished { result: early } => {
                    &&& encoder_for(options) is Err
                    &&& early == result
                },
            }
            &&& match step_of(advanced(job, loaded)) {
                StepView::Load { .. } => false,
                StepView::EncodeAndWrite { path, encoder } => {
                    &&& loaded is Ok
                    &&& path == dest_path
                    &&& encoder_for(options) == Ok::<EncoderConfig, CompressErrorView>(encoder)
                },
                StepView::Finished { result: early } => {
                    &&& loaded is Err || encoder_for(options) is Err
                    &&& early == result
                },
            }
        }),
{
}

/// An unsupported format tag is found out before any file work: a job
/// with such a tag has ended when it is made. It fails with
/// `UnsupportedFormat`, carrying the tag, whether or not its source can be
/// read; it asks neither for a load nor for a write; and no outcome that a
/// driver reports changes it.
pub proof fn lemma_unsupported_format_does_no_file_work(
    src_path: Seq<char>,
    dest_path: Seq<char>,
    options: OptionsView,
    loaded: Result<(), Seq<char>>,
    written: Result<(), Seq<char>>,
)
    requires
        format_of(options.format) is None,
    ensures
        step_of(fresh(src_path, dest_path, options)) == (StepView::Finished {
            result: Err(CompressErrorView::UnsupportedFormat { tag: options.format }),
        }),
        advanced(fresh(src_path, dest_path, options), loaded) == fresh(
            src_path,
            dest_path,
            options,
        ),
        compression_result(src_path, dest_path, options, loaded, written) == Err::<
            Seq<char>,
            CompressErrorView,
        >(CompressErrorView::UnsupportedFormat { tag: options.format }),
{
}

/// With a supported format tag a source that cannot be loaded ends the job
/// with `LoadError`, carrying the source path and the diagnostic, and no
/// write is asked for.
pub proof fn lemma_failed_load_writes_nothing(
    src_path: Seq<char>,
    dest_path: Seq<char>,
    options: OptionsView,
    detail: Seq<char>,
)
    requires
        format_of(options.format) is Some,
    ensures
        step_of(fresh(src_path, dest_path, options)) == (StepView::Load { path: src_path }),
        step_of(advanced(fresh(src_path, dest_path, options), Err(detail))) == (
        StepView::Finished {
            result: Err(CompressErrorView::LoadError { path: src_path, detail }),
        }),
{
}

} // verus!
