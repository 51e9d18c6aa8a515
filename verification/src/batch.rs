//! Many images into one directory, with one report line each.
//!
//! A [`BatchRun`] is a state machine that a driver runs: it hands out one
//! [`CompressJob`] per source, in input order, and takes back how each job
//! ended. A job that fails costs its source a `Failure` line and nothing
//! else; only a source path that no destination can be derived from, or an
//! unsupported format tag, ends the whole run, and then without a report.

use vstd::prelude::*;
use crate::compress::{fresh, CompressJob, JobView};
use crate::error::{message_of, outcome_view, CompressError, CompressErrorView};
use crate::options::{CompressionOptions, OptionsView};
use crate::encoder::format_of;
use crate::encoder::extension_for;
use crate::path::{
    destination_of, destination_path, file_name_of, joined, lemma_destination_of_plain_name,
    plain_name, stem_in,
};

verus! {

/// What the driver of a batch is to do next.
#[derive(Debug, PartialEq, Eq)]
pub enum BatchStep {
    /// Run this job to its end and record how it ended.
    Compress { job: CompressJob },
    /// Every source has its line: hand `report` to the caller.
    Finished { report: Vec<String> },
    /// The batch is given up: hand `reason` to the caller, and no report.
    Aborted { reason: CompressError },
}

/// The mathematical content of [`BatchStep`].
pub enum BatchStepView {
    Compress { job: JobView },
    Finished { report: Seq<Seq<char>> },
    Aborted { reason: CompressErrorView },
}

impl View for BatchStep {
    type V = BatchStepView;

    open spec fn view(&self) -> BatchStepView {
        match self {
            BatchStep::Compress { job } => BatchStepView::Compress { job: job@ },
            BatchStep::Finished { report } => BatchStepView::Finished {
                report: report.deep_view(),
            },
            BatchStep::Aborted { reason } => BatchStepView::Aborted { reason: reason@ },
        }
    }
}

/// The compression of a list of sources into one directory.
#[derive(Debug, PartialEq, Eq)]
pub struct BatchRun {
    src_paths: Vec<String>,
    dest_dir: String,
    options: CompressionOptions,
    report: Vec<String>,
}

/// The mathematical content of [`BatchRun`]. The sources that have a line
/// in `report` are done; the next one is the source at `report.len()`.
pub struct BatchView {
    pub src_paths: Seq<Seq<char>>,
    pub dest_dir: Seq<char>,
    pub options: OptionsView,
    pub report: Seq<Seq<char>>,
}

/// The report line of a source that was compressed to `dest_path`.
pub open spec fn success_line(dest_path: Seq<char>) -> Seq<char> {
    "Success: "@ + dest_path
}

/// The report line of a source whose compression failed with `message`.
pub open spec fn failure_line(src_path: Seq<char>, message: Seq<char>) -> Seq<char> {
    "Failure: "@ + src_path + " - "@ + message
}

/// The report line of a source, from how its compression ended.
pub open spec fn report_line(
    src_path: Seq<char>,
    dest_path: Seq<char>,
    outcome: Result<Seq<char>, CompressErrorView>,
) -> Seq<char> {
    match outcome {
        Ok(_) => success_line(dest_path),
        Err(error) => failure_line(src_path, message_of(error)),
    }
}

/// A run on which nothing has been done.
pub open spec fn started(
    src_paths: Seq<Seq<char>>,
    dest_dir: Seq<char>,
    options: OptionsView,
) -> BatchView {
    BatchView { src_paths, dest_dir, options, report: Seq::empty() }
}

/// What a run in a given state asks of its driver: to end once every source
/// has its line; else to compress the next source to its destination, or to
/// give up where no destination can be derived for it.
pub open spec fn batch_step_of(run: BatchView) -> BatchStepView {
    if run.report.len() >= run.src_paths.len() {
        BatchStepView::Finished { report: run.report }
    } else {
        let src_path = run.src_paths[run.report.len() as int];
        match destination_of(src_path, run.dest_dir, run.options.format) {
            Ok(dest_path) => BatchStepView::Compress {
                job: fresh(src_path, dest_path, run.options),
            },
            Err(reason) => BatchStepView::Aborted { reason },
        }
    }
}

/// The state of a run after its driver has reported how the job that the
/// run asked for ended: the report is one line longer, whatever the outcome.
/// A run that asked for no job stays as it is.
pub open spec fn recorded(run: BatchView, outcome: Result<Seq<char>, CompressErrorView>) -> BatchView {
    match batch_step_of(run) {
        BatchStepView::Compress { job } => BatchView {
            report: run.report.push(report_line(job.src_path, job.dest_path, outcome)),
            ..run
        },
        _ => run,
    }
}

/// What holds of every run: no more lines than sources.
pub open spec fn batch_wf(run: BatchView) -> bool {
    run.report.len() <= run.src_paths.len()
}

/// The report line of a source, from how its compression ended:
/// `Success: {dest_path}`, or `Failure: {src_path} - {message}`.
pub fn report_line_for(
    src_path: &str,
    dest_path: &str,
    outcome: &Result<String, CompressError>,
) -> (line: String)
    ensures
        line@ == report_line(src_path@, dest_path@, outcome_view(*outcome)),
{
    match outcome {
        Ok(_) => String::from_str("Success: ").concat(dest_path),
        Err(error) => {
            let message = error.message();
            String::from_str("Failure: ").concat(src_path).concat(" - ").concat(message.as_str())
        },
    }
}

/// A copy of the lines.
fn copy_lines(lines: &Vec<String>) -> (copy: Vec<String>)
    ensures
        copy.deep_view() == lines.deep_view(),
{
    let mut copy: Vec<String> = Vec::new();
    let mut i: usize = 0;
    while i < lines.len()
        invariant
            i <= lines.len(),
            copy.len() == i,
            forall|j: int| 0 <= j < i ==> copy[j]@ == lines[j]@,
        decreases lines.len() - i,
    {
        copy.push(lines[i].clone());
        i += 1;
    }
    assert(copy.deep_view() =~= lines.deep_view());
    copy
}

impl View for BatchRun {
    type V = BatchView;

    closed spec fn view(&self) -> BatchView {
        BatchView {
            src_paths: self.src_paths.deep_view(),
            dest_dir: self.dest_dir@,
            options: self.options@,
            report: self.report.deep_view(),
        }
    }
}

impl BatchRun {
    #[verifier::type_invariant]
    spec fn inv(&self) -> bool {
        batch_wf(self@)
    }

    /// A run that has not started: its report is empty.
    pub fn new(src_paths: Vec<String>, dest_dir: String, options: CompressionOptions) -> (run:
        BatchRun)
        ensures
            run@ == started(src_paths.deep_view(), dest_dir@, options@),
    {
        let run = BatchRun { src_paths, dest_dir, options, report: Vec::new() };
        assert(run.report.deep_view() =~= Seq::<Seq<char>>::empty());
        run
    }

    /// What the driver is to do next.
    pub fn next_step(&self) -> (step: BatchStep)
        ensures
            step@ == batch_step_of(self@),
            batch_wf(self@),
    {
        proof {
            use_type_invariant(self);
        }
        let done = self.report.len();
        if done >= self.src_paths.len() {
            return BatchStep::Finished { report: copy_lines(&self.report) };
        }
        let src_path = &self.src_paths[done];
        match destination_path(
            src_path.as_str(),
            self.dest_dir.as_str(),
            self.options.format.as_str(),
        ) {
            Ok(dest_path) => BatchStep::Compress {
                job: CompressJob::new(src_path.clone(), dest_path, self.options.duplicate()),
            },
            Err(reason) => BatchStep::Aborted { reason },
        }
    }

    /// The lines written so far, one per source that has been dealt with.
    pub fn report(&self) -> (lines: &Vec<String>)
        ensures
            lines.deep_view() == self@.report,
            lines.len() <= self@.src_paths.len(),
    {
        proof {
            use_type_invariant(self);
        }
        &self.report
    }

    /// Takes in how the job last asked for ended, and writes its line.
    ///
    /// A failed job gets a `Failure` line and the run goes on. Where the run
    /// asked for no job, because it has ended or was given up, nothing
    /// changes.
    pub fn record(&mut self, outcome: &Result<String, CompressError>)
        ensures
            final(self)@ == recorded(old(self)@, outcome_view(*outcome)),
    {
        proof {
            use_type_invariant(&*self);
        }
        let done = self.report.len();
        if done >= self.src_paths.len() {
            return ;
        }
        let src_path = &self.src_paths[done];
        match destination_path(
            src_path.as_str(),
            self.dest_dir.as_str(),
            self.options.format.as_str(),
        ) {
            Ok(dest_path) => {
                let line = report_line_for(src_path.as_str(), dest_path.as_str(), outcome);
                let ghost text = line@;
                let mut report: Vec<String> = Vec::new();
                std::mem::swap(&mut self.report, &mut report);
                report.push(line);
                self.report = report;
                assert(self.report.deep_view() =~= old(self).report.deep_view().push(text));
            },
            Err(_) => {},
        }
    }
}

/// Whether a report line tells of a success.
pub open spec fn is_success_line(line: Seq<char>) -> bool {
    "Success: "@.is_prefix_of(line)
}

/// Whether a report line tells of a failure.
pub open spec fn is_failure_line(line: Seq<char>) -> bool {
    "Failure: "@.is_prefix_of(line)
}

/// The state of a run after its driver has reported the outcomes of its
/// jobs, one after the other.
pub open spec fn replayed(run: BatchView, outcomes: Seq<Result<Seq<char>, CompressErrorView>>) -> BatchView
    decreases outcomes.len(),
{
    if outcomes.len() == 0 {
        run
    } else {
        replayed(recorded(run, outcomes.first()), outcomes.drop_first())
    }
}

/// Whether a destination can be derived for every source.
pub open spec fn all_placed(src_paths: Seq<Seq<char>>, dest_dir: Seq<char>, tag: Seq<char>) -> bool {
    forall|i: int|
        0 <= i < src_paths.len() ==> (#[trigger] destination_of(src_paths[i], dest_dir, tag)) is Ok
}

/// The line that a run writes for its source at `index`, given how the job
/// of that source ended.
pub open spec fn line_at(
    run: BatchView,
    index: int,
    outcome: Result<Seq<char>, CompressErrorView>,
) -> Seq<char> {
    report_line(
        run.src_paths[index],
        destination_of(run.src_paths[index], run.dest_dir, run.options.format)->Ok_0,
        outcome,
    )
}

/// A report line tells how the job ended: it begins with `Success: ` for a
/// job that went well and with `Failure: ` for one that failed, and never
/// with both.
pub proof fn lemma_line_tells_outcome(
    src_path: Seq<char>,
    dest_path: Seq<char>,
    outcome: Result<Seq<char>, CompressErrorView>,
)
    ensures
        is_success_line(report_line(src_path, dest_path, outcome)) <==> outcome is Ok,
        is_failure_line(report_line(src_path, dest_path, outcome)) <==> outcome is Err,
{
    reveal_strlit("Success: ");
    reveal_strlit("Failure: ");
    let line = report_line(src_path, dest_path, outcome);
    assert("Success: "@[0] == 'S');
    assert("Failure: "@[0] == 'F');
    match outcome {
        Ok(_) => {
            assert(line.subrange(0, 9) =~= "Success: "@);
            assert(line[0] == 'S');
            assert("Failure: "@.is_prefix_of(line) ==> line.subrange(0, 9)[0] == 'F');
        },
        Err(error) => {
            assert(line.subrange(0, 9) =~= "Failure: "@);
            assert(line[0] == 'F');
            assert("Success: "@.is_prefix_of(line) ==> line.subrange(0, 9)[0] == 'S');
        },
    }
}

/// Recording an outcome keeps a run well formed and changes nothing but the
/// report, which keeps its lines and gains one at most.
pub proof fn lemma_record_keeps_run(run: BatchView, outcome: Result<Seq<char>, CompressErrorView>)
    requires
        batch_wf(run),
    ensures
        batch_wf(recorded(run, outcome)),
        recorded(run, outcome).src_paths == run.src_paths,
        recorded(run, outcome).dest_dir == run.dest_dir,
        recorded(run, outcome).options == run.options,
        run.report.is_prefix_of(recorded(run, outcome).report),
        recorded(run, outcome).report.len() <= run.report.len() + 1,
{
}

/// A job that fails never ends the run: where a job was asked for, its
/// outcome, good or bad, adds exactly one line for its source, and what the
/// run asks for next is the same for a job that failed as for one that went
/// well.
pub proof fn lemma_failure_is_isolated(
    run: BatchView,
    outcome: Result<Seq<char>, CompressErrorView>,
    other: Result<Seq<char>, CompressErrorView>,
)
    requires
        batch_step_of(run) is Compress,
    ensures
        recorded(run, outcome).report == run.report.push(
            line_at(run, run.report.len() as int, outcome),
        ),
        match batch_step_of(recorded(run, outcome)) {
            BatchStepView::Compress { job } => batch_step_of(recorded(run, other))
                == (BatchStepView::Compress { job }),
            BatchStepView::Aborted { reason } => batch_step_of(recorded(run, other))
                == (BatchStepView::Aborted { reason }),
            BatchStepView::Finished { .. } => batch_step_of(recorded(run, other)) is Finished,
        },
{
}

/// The outcomes of the first sources of a run whose sources all have a
/// destination give one line each, in input order, after the lines that
/// were there.
proof fn lemma_replay_appends(run: BatchView, outcomes: Seq<Result<Seq<char>, CompressErrorView>>)
    requires
        all_placed(run.src_paths, run.dest_dir, run.options.format),
        run.report.len() + outcomes.len() <= run.src_paths.len(),
    ensures
        replayed(run, outcomes).src_paths == run.src_paths,
        replayed(run, outcomes).dest_dir == run.dest_dir,
        replayed(run, outcomes).options == run.options,
        replayed(run, outcomes).report.len() == run.report.len() + outcomes.len(),
        forall|i: int|
            0 <= i < run.report.len() ==> replayed(run, outcomes).report[i] == run.report[i],
        forall|j: int|
            0 <= j < outcomes.len() ==> #[trigger] replayed(run, outcomes).report[run.report.len()
                + j] == line_at(run, run.report.len() + j, outcomes[j]),
    decreases outcomes.len(),
{
    if outcomes.len() > 0 {
        let done = run.report.len() as int;
        assert(destination_of(run.src_paths[done], run.dest_dir, run.options.format) is Ok);
        let next = recorded(run, outcomes.first());
        let rest = outcomes.drop_first();
        lemma_replay_appends(next, rest);
        let end = replayed(run, outcomes);
        assert(end == replayed(next, rest));
        assert forall|i: int| 0 <= i < done implies end.report[i] == run.report[i] by {
            assert(end.report[i] == next.report[i]);
        }
        assert forall|j: int| 0 <= j < outcomes.len() implies #[trigger] end.report[done + j]
            == line_at(run, done + j, outcomes[j]) by {
            if j == 0 {
                assert(end.report[done] == next.report[done]);
            } else {
                assert(end.report[next.report.len() + (j - 1)] == line_at(
                    next,
                    next.report.len() + (j - 1),
                    rest[j - 1],
                ));
            }
        }
    }
}

/// A batch of N sources that all have a destination ends with a report of
/// N lines, in input order: the line of each source is its `Success` line
/// where its job went well and its `Failure` line where its job failed,
/// whatever became of the other jobs.
pub proof fn lemma_report_follows_outcomes(
    src_paths: Seq<Seq<char>>,
    dest_dir: Seq<char>,
    options: OptionsView,
    outcomes: Seq<Result<Seq<char>, CompressErrorView>>,
)
    requires
        outcomes.len() == src_paths.len(),
        all_placed(src_paths, dest_dir, options.format),
    ensures
        ({
            let run = started(src_paths, dest_dir, options);
            let end = replayed(run, outcomes);
            &&& batch_step_of(end) == BatchStepView::Finished { report: end.report }
            &&& end.report.len() == src_paths.len()
            &&& forall|i: int|
                0 <= i < src_paths.len() ==> #[trigger] end.report[i] == line_at(
                    run,
                    i,
                    outcomes[i],
                )
            &&& forall|i: int|
                0 <= i < src_paths.len() ==> (is_failure_line(#[trigger] end.report[i])
                    <==> outcomes[i] is Err)
            &&& forall|i: int|
                0 <= i < src_paths.len() ==> (is_success_line(#[trigger] end.report[i])
                    <==> outcomes[i] is Ok)
        }),
{
    let run = started(src_paths, dest_dir, options);
    let end = replayed(run, outcomes);
    lemma_replay_appends(run, outcomes);
    assert forall|i: int| 0 <= i < src_paths.len() implies #[trigger] end.report[i] == line_at(
        run,
        i,
        outcomes[i],
    ) by {
        assert(end.report[run.report.len() + i] == line_at(run, run.report.len() + i, outcomes[i]));
    }
    assert forall|i: int| 0 <= i < src_paths.len() implies (is_failure_line(
        #[trigger] end.report[i],
    ) <==> outcomes[i] is Err) && (is_success_line(end.report[i]) <==> outcomes[i] is Ok) by {
        lemma_line_tells_outcome(
            src_paths[i],
            destination_of(src_paths[i], dest_dir, options.format)->Ok_0,
            outcomes[i],
        );
    }
}

/// A batch of N sources with plain file names and a supported format tag
/// ends with a report of N lines, in input order, whatever the number of
/// jobs that fail: for a job that went well `Success: {dir}/{stem}.{ext}`,
/// with the stem of the source's file name, and for a job that failed
/// `Failure: {source} - {message}`.
pub proof fn lemma_report_of_plain_names(
    src_paths: Seq<Seq<char>>,
    names: Seq<Seq<char>>,
    dest_dir: Seq<char>,
    options: OptionsView,
    outcomes: Seq<Result<Seq<char>, CompressErrorView>>,
)
    requires
        outcomes.len() == src_paths.len(),
        names.len() == src_paths.len(),
        forall|i: int| 0 <= i < src_paths.len() ==> plain_name(#[trigger] src_paths[i], names[i]),
        extension_for(options.format) is Some,
    ensures
        ({
            let end = replayed(started(src_paths, dest_dir, options), outcomes);
            let extension = extension_for(options.format)->Some_0;
            &&& batch_step_of(end) == BatchStepView::Finished { report: end.report }
            &&& end.report.len() == src_paths.len()
            &&& forall|i: int|
                0 <= i < src_paths.len() ==> #[trigger] end.report[i] == report_line(
                    src_paths[i],
                    joined(dest_dir, stem_in(names[i]), extension),
                    outcomes[i],
                )
        }),
{
    let run = started(src_paths, dest_dir, options);
    let end = replayed(run, outcomes);
    assert forall|i: int| 0 <= i < src_paths.len() implies (#[trigger] destination_of(
        src_paths[i],
        dest_dir,
        options.format,
    )) is Ok by {
        lemma_destination_of_plain_name(src_paths[i], names[i], dest_dir, options.format);
    }
    lemma_report_follows_outcomes(src_paths, dest_dir, options, outcomes);
    assert forall|i: int| 0 <= i < src_paths.len() implies #[trigger] end.report[i] == report_line(
        src_paths[i],
        joined(dest_dir, stem_in(names[i]), extension_for(options.format)->Some_0),
        outcomes[i],
    ) by {
        lemma_destination_of_plain_name(src_paths[i], names[i], dest_dir, options.format);
        assert(end.report[i] == line_at(run, i, outcomes[i]));
    }
}

/// With an unsupported format tag and at least one source a batch is given
/// up at once: no job is ever asked for, no line is ever written, and the
/// reason is `UnsupportedFormat` unless the first source has no readable
/// file name.
pub proof fn lemma_unsupported_format_aborts(
    src_paths: Seq<Seq<char>>,
    dest_dir: Seq<char>,
    options: OptionsView,
    outcomes: Seq<Result<Seq<char>, CompressErrorView>>,
)
    requires
        format_of(options.format) is None,
        src_paths.len() > 0,
    ensures
        batch_step_of(started(src_paths, dest_dir, options)) is Aborted,
        file_name_of(src_paths[0]) is Text ==> batch_step_of(
            started(src_paths, dest_dir, options),
        ) == (BatchStepView::Aborted {
            reason: CompressErrorView::UnsupportedFormat { tag: options.format },
        }),
        replayed(started(src_paths, dest_dir, options), outcomes) == started(
            src_paths,
            dest_dir,
            options,
        ),
    decreases outcomes.len(),
{
    let run = started(src_paths, dest_dir, options);
    if outcomes.len() > 0 {
        assert(recorded(run, outcomes.first()) == run);
        lemma_unsupported_format_aborts(src_paths, dest_dir, options, outcomes.drop_first());
    }
}

} // verus!
