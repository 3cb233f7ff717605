//! The pipeline of one job as a state machine. A worker creates a run when
//! it takes the job up, then alternates: it hands the run what the outside
//! world gave, and performs the action that the run asks for. Reading and
//! writing files is the worker's part; decoding, resizing and encoding are
//! steps of the run itself, one step each, so that a cancellation can take
//! effect between any two of them.

use crate::batch::{JobOutcome, OutcomeView};
use crate::codec::{
    can_resize, encode_to_webp, encoder_refusal, is_webp_container, load_image_as, resize_fits,
    resize_image, ConversionError, ErrorKind, Raster, RasterView,
};
use crate::job::{JobUnit, JobUnitView};
use crate::progress::ItemStatus;
use vstd::prelude::*;
use vstd::string::StringExecFns;

verus! {

/// Where a run stands.
#[derive(Debug)]
pub enum JobStage {
    /// Taken up; nothing done yet.
    Dispatched,
    /// The worker was asked for the bytes of the source.
    AwaitingSource,
    /// The bytes are at hand; decoding is next.
    Decoding { bytes: Vec<u8> },
    /// The raster is decoded; resizing is next.
    Resizing { raster: Raster },
    /// The raster has its final dimensions; encoding is next.
    Encoding { raster: Raster },
    /// The worker was asked to write the output.
    AwaitingWrite,
    /// The worker was asked for the sizes of source and output.
    AwaitingSizes,
    /// Done: the output is written.
    Succeeded,
    /// Done: the job was given up.
    Failed,
}

/// The mathematical content of a stage.
pub enum StageView {
    Dispatched,
    AwaitingSource,
    Decoding { bytes: Seq<u8> },
    Resizing { raster: RasterView },
    Encoding { raster: RasterView },
    AwaitingWrite,
    AwaitingSizes,
    Succeeded,
    Failed,
}

impl View for JobStage {
    type V = StageView;

    open spec fn view(&self) -> StageView {
        match *self {
            JobStage::Dispatched => StageView::Dispatched,
            JobStage::AwaitingSource => StageView::AwaitingSource,
            JobStage::Decoding { bytes } => StageView::Decoding { bytes: bytes@ },
            JobStage::Resizing { raster } => StageView::Resizing { raster: raster@ },
            JobStage::Encoding { raster } => StageView::Encoding { raster: raster@ },
            JobStage::AwaitingWrite => StageView::AwaitingWrite,
            JobStage::AwaitingSizes => StageView::AwaitingSizes,
            JobStage::Succeeded => StageView::Succeeded,
            JobStage::Failed => StageView::Failed,
        }
    }
}

impl StageView {
    /// The status that the item's record has while its run is at this stage.
    pub open spec fn status(self) -> ItemStatus {
        match self {
            StageView::Succeeded => ItemStatus::Succeeded,
            StageView::Failed => ItemStatus::Failed,
            _ => ItemStatus::Processing,
        }
    }

    /// How far the run has come, from 0 at its start to 7 at its end.
    pub open spec fn progress(self) -> nat {
        match self {
            StageView::Dispatched => 0,
            StageView::AwaitingSource => 1,
            StageView::Decoding { .. } => 2,
            StageView::Resizing { .. } => 3,
            StageView::Encoding { .. } => 4,
            StageView::AwaitingWrite => 5,
            StageView::AwaitingSizes => 6,
            StageView::Succeeded => 7,
            StageView::Failed => 7,
        }
    }
}

/// What the worker hands to a run.
#[derive(Debug)]
pub enum JobInput {
    /// Nothing from outside: take the next step.
    Resume,
    /// The source was read.
    SourceRead { bytes: Vec<u8> },
    /// The source is missing or could not be read.
    SourceUnreadable { message: String },
    /// The output was written.
    OutputWritten,
    /// The output could not be written.
    WriteFailed { message: String },
    /// The sizes of source and output were read.
    SizesRead { original_size: u64, compressed_size: u64 },
    /// A size could not be read.
    SizesUnreadable { message: String },
}

/// The mathematical content of an input.
pub enum InputView {
    Resume,
    SourceRead { bytes: Seq<u8> },
    SourceUnreadable { message: Seq<char> },
    OutputWritten,
    WriteFailed { message: Seq<char> },
    SizesRead { original_size: u64, compressed_size: u64 },
    SizesUnreadable { message: Seq<char> },
}

impl View for JobInput {
    type V = InputView;

    open spec fn view(&self) -> InputView {
        match *self {
            JobInput::Resume => InputView::Resume,
            JobInput::SourceRead { bytes } => InputView::SourceRead { bytes: bytes@ },
            JobInput::SourceUnreadable { message } => InputView::SourceUnreadable {
                message: message@,
            },
            JobInput::OutputWritten => InputView::OutputWritten,
            JobInput::WriteFailed { message } => InputView::WriteFailed { message: message@ },
            JobInput::SizesRead { original_size, compressed_size } => InputView::SizesRead {
                original_size,
                compressed_size,
            },
            JobInput::SizesUnreadable { message } => InputView::SizesUnreadable {
                message: message@,
            },
        }
    }
}

/// What a run asks of the worker.
#[derive(Debug)]
pub enum JobAction {
    /// Read the source file and hand its bytes back.
    ReadSource { path: String },
    /// Nothing to do outside: look at the cancellation flag and resume.
    Continue,
    /// Create or truncate the file of that name in the directory and write
    /// the bytes.
    WriteOutput { directory: String, file_name: String, bytes: Vec<u8> },
    /// Read the sizes of the source and of the output just written.
    ReadSizes { source_path: String, directory: String, file_name: String },
    /// The run is over: report the outcome to the shared state.
    Report { outcome: JobOutcome },
    /// The input did not fit the stage, or the run was over already.
    Nothing,
}

/// The mathematical content of an action.
pub enum ActionView {
    ReadSource { path: Seq<char> },
    Continue,
    WriteOutput { directory: Seq<char>, file_name: Seq<char>, bytes: Seq<u8> },
    ReadSizes { source_path: Seq<char>, directory: Seq<char>, file_name: Seq<char> },
    Report { outcome: OutcomeView },
    Nothing,
}

impl View for JobAction {
    type V = ActionView;

    open spec fn view(&self) -> ActionView {
        match *self {
            JobAction::ReadSource { path } => ActionView::ReadSource { path: path@ },
            JobAction::Continue => ActionView::Continue,
            JobAction::WriteOutput { directory, file_name, bytes } => ActionView::WriteOutput {
                directory: directory@,
                file_name: file_name@,
                bytes: bytes@,
            },
            JobAction::ReadSizes { source_path, directory, file_name } => ActionView::ReadSizes {
                source_path: source_path@,
                directory: directory@,
                file_name: file_name@,
            },
            JobAction::Report { outcome } => ActionView::Report { outcome: outcome@ },
            JobAction::Nothing => ActionView::Nothing,
        }
    }
}

impl ActionView {
    /// The action reports a failure of the given kind.
    pub open spec fn reports_failure(self, kind: ErrorKind) -> bool {
        match self {
            ActionView::Report { outcome: OutcomeView::Failed { kind: k, .. } } => k == kind,
            _ => false,
        }
    }
}

/// The message of a job that was cancelled.
pub open spec fn cancelled_text() -> Seq<char> {
    "Conversion cancelled"@
}

/// The message of a job whose raster or resize target is beyond what the
/// resampler can be asked for.
pub open spec fn resize_too_large_text() -> Seq<char> {
    "Image or resize target is too large"@
}

/// The action that reports a failure.
pub open spec fn failure(kind: ErrorKind, message: Seq<char>) -> ActionView {
    ActionView::Report { outcome: OutcomeView::Failed { kind, message } }
}

/// What decoding may lead to. The bytes are decoded in the format that
/// the extension of the source's name stands for, and the decoder decides:
/// a raster whose buffer covers its pixels, which goes on to resizing where
/// the job resizes and straight to encoding where not, or a failure to
/// decode, which ends the run.
pub open spec fn decode_allows(job: JobUnitView, post: StageView, action: ActionView) -> bool {
    ||| post == StageView::Failed && action.reports_failure(ErrorKind::Decode)
    ||| action == ActionView::Continue && match job.resize {
        Some(_) => (post matches StageView::Resizing { raster } && raster.covered()),
        None => (post matches StageView::Encoding { raster } && raster.covered()),
    }
}

/// The step that follows the decoder's answer: the raster goes on to
/// resizing where the job resizes and straight to encoding where not; a
/// failure ends the run with the failure's kind and message.
pub open spec fn decoded_step(job: JobUnitView, decoded: Result<RasterView, (ErrorKind, Seq<char>)>) -> (
    StageView,
    ActionView,
) {
    match decoded {
        Ok(raster) => (
            match job.resize {
                Some(_) => StageView::Resizing { raster },
                None => StageView::Encoding { raster },
            },
            ActionView::Continue,
        ),
        Err((kind, message)) => (StageView::Failed, failure(kind, message)),
    }
}

/// The step that follows the encoder's answer: the bytes are to be written,
/// as they are, under the job's file name in the job's directory; a failure
/// ends the run with the failure's kind and message.
pub open spec fn encoded_step(job: JobUnitView, encoded: Result<Seq<u8>, (ErrorKind, Seq<char>)>) -> (
    StageView,
    ActionView,
) {
    match encoded {
        Ok(bytes) => (
            StageView::AwaitingWrite,
            ActionView::WriteOutput {
                directory: job.output_directory,
                file_name: job.output_file_name,
                bytes,
            },
        ),
        Err((kind, message)) => (StageView::Failed, failure(kind, message)),
    }
}

/// What resizing leads to: a raster of exactly the job's dimensions and the
/// same layout, or a failure where the resampler cannot be asked for those
/// dimensions.
pub open spec fn resize_allows(
    job: JobUnitView,
    raster: RasterView,
    post: StageView,
    action: ActionView,
) -> bool {
    match job.resize {
        Some((width, height)) => if resize_fits(
            raster.width,
            raster.height,
            width as nat,
            height as nat,
        ) {
            &&& action == ActionView::Continue
            &&& post matches StageView::Encoding { raster: resized }
            &&& resized.width == width
            &&& resized.height == height
            &&& resized.layout == raster.layout
        } else {
            post == StageView::Failed && action == failure(
                ErrorKind::Encode,
                resize_too_large_text(),
            )
        },
        None => action == ActionView::Continue && post == (StageView::Encoding { raster }),
    }
}

/// What encoding may lead to. A raster that is refused before the encoder
/// is asked (for its layout, for having no pixels, for dimensions beyond the
/// encoder) ends the run with the message of that refusal. For any other
/// raster the encoder decides: the bytes of a WebP container, to be written
/// under the job's file name in the job's directory, or a failure to encode.
pub open spec fn encode_allows(
    job: JobUnitView,
    raster: RasterView,
    post: StageView,
    action: ActionView,
) -> bool {
    match encoder_refusal(raster) {
        Some(text) => post == StageView::Failed && action == failure(ErrorKind::Encode, text),
        None => {
            ||| post == StageView::Failed && action.reports_failure(ErrorKind::Encode)
            ||| {
                &&& post == StageView::AwaitingWrite
                &&& action matches ActionView::WriteOutput { directory, file_name, bytes }
                &&& directory == job.output_directory
                &&& file_name == job.output_file_name
                &&& is_webp_container(bytes)
            }
        },
    }
}

/// The steps that a run may take: from `pre`, on `input`, with or without a
/// request to cancel, to `post` with `action`. Where the outside crates
/// decide (decoding, resampling, encoding), more than one step is allowed;
/// everywhere else exactly one.
pub open spec fn step_allows(
    job: JobUnitView,
    pre: StageView,
    input: InputView,
    cancel: bool,
    post: StageView,
    action: ActionView,
) -> bool {
    if pre.status().is_terminal() {
        post == pre && action == ActionView::Nothing
    } else if cancel {
        post == StageView::Failed && action == failure(ErrorKind::Cancelled, cancelled_text())
    } else {
        match (pre, input) {
            (StageView::Dispatched, InputView::Resume) => {
                &&& post == StageView::AwaitingSource
                &&& action == ActionView::ReadSource { path: job.source_path }
            },
            (StageView::AwaitingSource, InputView::SourceRead { bytes }) => {
                &&& post == StageView::Decoding { bytes }
                &&& action == ActionView::Continue
            },
            (StageView::AwaitingSource, InputView::SourceUnreadable { message }) => {
                &&& post == StageView::Failed
                &&& action == failure(ErrorKind::Decode, message)
            },
            (StageView::Decoding { bytes }, InputView::Resume) => decode_allows(job, post, action),
            (StageView::Resizing { raster }, InputView::Resume) => resize_allows(
                job,
                raster,
                post,
                action,
            ),
            (StageView::Encoding { raster }, InputView::Resume) => encode_allows(
                job,
                raster,
                post,
                action,
            ),
            (StageView::AwaitingWrite, InputView::OutputWritten) => {
                &&& post == StageView::AwaitingSizes
                &&& action == ActionView::ReadSizes {
                    source_path: job.source_path,
                    directory: job.output_directory,
                    file_name: job.output_file_name,
                }
            },
            (StageView::AwaitingWrite, InputView::WriteFailed { message }) => {
                &&& post == StageView::Failed
                &&& action == failure(ErrorKind::Io, message)
            },
            (
                StageView::AwaitingSizes,
                InputView::SizesRead { original_size, compressed_size },
            ) => {
                &&& post == StageView::Succeeded
                &&& action == ActionView::Report {
                    outcome: OutcomeView::Succeeded { original_size, compressed_size },
                }
            },
            (StageView::AwaitingSizes, InputView::SizesUnreadable { message }) => {
                &&& post == StageView::Failed
                &&& action == failure(ErrorKind::Io, message)
            },
            _ => post == pre && action == ActionView::Nothing,
        }
    }
}

/// A step never takes a run back: its status stays, or goes from
/// processing to a terminal one. The run reports an outcome in exactly the
/// step that ends it, and the outcome is the status it ends in. Every step
/// that does anything brings the run further, and a run is over when it has
/// come as far as 7: no run takes more than seven steps that do anything.
pub proof fn lemma_step_advances(
    job: JobUnitView,
    pre: StageView,
    input: InputView,
    cancel: bool,
    post: StageView,
    action: ActionView,
)
    requires
        step_allows(job, pre, input, cancel, post, action),
    ensures
        post.status() == pre.status() || pre.status().may_become(post.status()),
        action is Report <==> !pre.status().is_terminal() && post.status().is_terminal(),
        action matches ActionView::Report { outcome } ==> outcome.status() == post.status(),
        action is Nothing <==> post == pre,
        action !is Nothing ==> pre.progress() < post.progress(),
        post.progress() <= 7,
        post.status().is_terminal() <==> post.progress() == 7,
        cancel ==> post.status().is_terminal(),
{
}

/// Whether the step from `pre` on `input` is left to the outside crates:
/// what the decoder makes of the bytes, the samples that resizing gives, and
/// what the encoder makes of a raster that it is asked for.
pub open spec fn left_to_outside(job: JobUnitView, pre: StageView, input: InputView) -> bool {
    input is Resume && match pre {
        StageView::Decoding { .. } => true,
        StageView::Resizing { raster } => job.resize matches Some((width, height)) && resize_fits(
            raster.width,
            raster.height,
            width as nat,
            height as nat,
        ),
        StageView::Encoding { raster } => encoder_refusal(raster) is None,
        _ => false,
    }
}

/// Two runs of one job take the same steps: from the same stage, on the
/// same input and the same request to cancel, a step leads to the same stage
/// with the same action, wherever it is not left to the decoder, the
/// resampler or the encoder.
pub proof fn lemma_step_is_repeatable(
    job: JobUnitView,
    pre: StageView,
    input: InputView,
    cancel: bool,
    first: (StageView, ActionView),
    second: (StageView, ActionView),
)
    requires
        step_allows(job, pre, input, cancel, first.0, first.1),
        step_allows(job, pre, input, cancel, second.0, second.1),
        cancel || !left_to_outside(job, pre, input),
    ensures
        first == second,
{
}

/// One job in the hands of a worker.
#[derive(Debug)]
pub struct JobRun {
    job: JobUnit,
    stage: JobStage,
}

/// The mathematical content of a run.
pub struct RunView {
    pub job: JobUnitView,
    pub stage: StageView,
}

impl View for JobRun {
    type V = RunView;

    closed spec fn view(&self) -> RunView {
        RunView { job: self.job@, stage: self.stage@ }
    }
}

fn failed(kind: ErrorKind, message: String) -> (action: JobAction)
    ensures
        action@ == failure(kind, message@),
{
    JobAction::Report { outcome: JobOutcome::Failed { error: ConversionError { kind, message } } }
}

impl JobRun {
    /// The run of a job that a worker has just taken up.
    pub fn new(job: JobUnit) -> (run: JobRun)
        ensures
            run@ == (RunView { job: job@, stage: StageView::Dispatched }),
    {
        JobRun { job, stage: JobStage::Dispatched }
    }

    /// Takes the decoder's answer for a job whose bytes were at hand: the
    /// raster goes on, a failure ends the run.
    pub fn after_decoding(job: JobUnit, decoded: Result<Raster, ConversionError>) -> (next: (
        JobRun,
        JobAction,
    ))
        ensures
            next.0@.job == job@,
            (next.0@.stage, next.1@) == decoded_step(
                job@,
                match decoded {
                    Ok(raster) => Ok(raster@),
                    Err(error) => Err((error.kind, error.message@)),
                },
            ),
    {
        match decoded {
            Ok(raster) => {
                let resizes = job.resize.is_some();
                if resizes {
                    (JobRun { job, stage: JobStage::Resizing { raster } }, JobAction::Continue)
                } else {
                    (JobRun { job, stage: JobStage::Encoding { raster } }, JobAction::Continue)
                }
            },
            Err(error) => (
                JobRun { job, stage: JobStage::Failed },
                JobAction::Report { outcome: JobOutcome::Failed { error } },
            ),
        }
    }

    /// Takes the encoder's answer for a job whose raster was at hand: the
    /// bytes are handed on to be written, as they are; a failure ends the
    /// run.
    pub fn after_encoding(job: JobUnit, encoded: Result<Vec<u8>, ConversionError>) -> (next: (
        JobRun,
        JobAction,
    ))
        ensures
            next.0@.job == job@,
            (next.0@.stage, next.1@) == encoded_step(
                job@,
                match encoded {
                    Ok(bytes) => Ok(bytes@),
                    Err(error) => Err((error.kind, error.message@)),
                },
            ),
    {
        match encoded {
            Ok(bytes) => {
                let action = JobAction::WriteOutput {
                    directory: job.output_directory.clone(),
                    file_name: job.output_file_name.clone(),
                    bytes,
                };
                (JobRun { job, stage: JobStage::AwaitingWrite }, action)
            },
            Err(error) => (
                JobRun { job, stage: JobStage::Failed },
                JobAction::Report { outcome: JobOutcome::Failed { error } },
            ),
        }
    }

    /// The job of the run.
    pub fn job(&self) -> (job: &JobUnit)
        ensures
            job@ == self@.job,
    {
        &self.job
    }

    /// The status of the item while its run stands where it does.
    pub fn status(&self) -> (status: ItemStatus)
        ensures
            status == self@.stage.status(),
    {
        match &self.stage {
            JobStage::Succeeded => ItemStatus::Succeeded,
            JobStage::Failed => ItemStatus::Failed,
            _ => ItemStatus::Processing,
        }
    }

    /// How far the run has come, from 0 at its start to 7 at its end.
    pub fn progress(&self) -> (progress: u8)
        ensures
            progress == self@.stage.progress(),
    {
        match &self.stage {
            JobStage::Dispatched => 0,
            JobStage::AwaitingSource => 1,
            JobStage::Decoding { .. } => 2,
            JobStage::Resizing { .. } => 3,
            JobStage::Encoding { .. } => 4,
            JobStage::AwaitingWrite => 5,
            JobStage::AwaitingSizes => 6,
            JobStage::Succeeded => 7,
            JobStage::Failed => 7,
        }
    }

    /// Takes one step: on what the worker hands in, and on whether a
    /// cancellation was requested, the run moves on and says what the worker
    /// is to do next. A run that is over stays as it is; so does a run that
    /// is handed an input that does not fit its stage.
    pub fn step(self, input: JobInput, cancel: bool) -> (next: (JobRun, JobAction))
        ensures
            next.0@.job == self@.job,
            step_allows(self@.job, self@.stage, input@, cancel, next.0@.stage, next.1@),
    {
        let JobRun { job, stage } = self;
        match stage {
            JobStage::Succeeded => {
                return (JobRun { job, stage: JobStage::Succeeded }, JobAction::Nothing);
            },
            JobStage::Failed => {
                return (JobRun { job, stage: JobStage::Failed }, JobAction::Nothing);
            },
            _ => {},
        }
        if cancel {
            return (
                JobRun { job, stage: JobStage::Failed },
                failed(ErrorKind::Cancelled, String::from_str("Conversion cancelled")),
            );
        }
        match stage {
            JobStage::Dispatched => match input {
                JobInput::Resume => {
                    let action = JobAction::ReadSource { path: job.source_path.clone() };
                    (JobRun { job, stage: JobStage::AwaitingSource }, action)
                },
                _ => (JobRun { job, stage: JobStage::Dispatched }, JobAction::Nothing),
            },
            JobStage::AwaitingSource => match input {
                JobInput::SourceRead { bytes } => (
                    JobRun { job, stage: JobStage::Decoding { bytes } },
                    JobAction::Continue,
                ),
                JobInput::SourceUnreadable { message } => (
                    JobRun { job, stage: JobStage::Failed },
                    failed(ErrorKind::Decode, message),
                ),
                _ => (JobRun { job, stage: JobStage::AwaitingSource }, JobAction::Nothing),
            },
            JobStage::Decoding { bytes } => match input {
                JobInput::Resume => {
                    let decoded = load_image_as(&bytes, &job.source_extension);
                    JobRun::after_decoding(job, decoded)
                },
                _ => (JobRun { job, stage: JobStage::Decoding { bytes } }, JobAction::Nothing),
            },
            JobStage::Resizing { raster } => match input {
                JobInput::Resume => match job.resize {
                    Some((width, height)) => {
                        if can_resize(&raster, width, height) {
                            let resized = resize_image(raster, width, height);
                            (
                                JobRun { job, stage: JobStage::Encoding { raster: resized } },
                                JobAction::Continue,
                            )
                        } else {
                            (
                                JobRun { job, stage: JobStage::Failed },
                                failed(
                                    ErrorKind::Encode,
                                    String::from_str("Image or resize target is too large"),
                                ),
                            )
                        }
                    },
                    None => (JobRun { job, stage: JobStage::Encoding { raster } }, JobAction::Continue),
                },
                _ => (JobRun { job, stage: JobStage::Resizing { raster } }, JobAction::Nothing),
            },
            JobStage::Encoding { raster } => match input {
                JobInput::Resume => {
                    let encoded = encode_to_webp(&raster, job.quality);
                    JobRun::after_encoding(job, encoded)
                },
                _ => (JobRun { job, stage: JobStage::Encoding { raster } }, JobAction::Nothing),
            },
            JobStage::AwaitingWrite => match input {
                JobInput::OutputWritten => {
                    let action = JobAction::ReadSizes {
                        source_path: job.source_path.clone(),
                        directory: job.output_directory.clone(),
                        file_name: job.output_file_name.clone(),
                    };
                    (JobRun { job, stage: JobStage::AwaitingSizes }, action)
                },
                JobInput::WriteFailed { message } => (
                    JobRun { job, stage: JobStage::Failed },
                    failed(ErrorKind::Io, message),
                ),
                _ => (JobRun { job, stage: JobStage::AwaitingWrite }, JobAction::Nothing),
            },
            JobStage::AwaitingSizes => match input {
                JobInput::SizesRead { original_size, compressed_size } => (
                    JobRun { job, stage: JobStage::Succeeded },
                    JobAction::Report {
                        outcome: JobOutcome::Succeeded { original_size, compressed_size },
                    },
                ),
                JobInput::SizesUnreadable { message } => (
                    JobRun { job, stage: JobStage::Failed },
                    failed(ErrorKind::Io, message),
                ),
                _ => (JobRun { job, stage: JobStage::AwaitingSizes }, JobAction::Nothing),
            },
            JobStage::Succeeded => (JobRun { job, stage: JobStage::Succeeded }, JobAction::Nothing),
            JobStage::Failed => (JobRun { job, stage: JobStage::Failed }, JobAction::Nothing),
        }
    }
}

} // verus!
