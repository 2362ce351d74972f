//! The decisions of one workflow run: which step comes next and with which arguments, and what
//! the status table records, given how the previous step ended. The steps themselves (HTTP
//! calls, files, queue slots) are carried out by the caller, which reports each outcome back.
use vstd::prelude::*;
use crate::amatsukaze::{queue_add_request, queue_add_spec, QueueAddRequest, QueueAddView};
use crate::clock::{now, Timestamp};
use crate::epgstation::InputVideo;
use crate::registry::{index_lookup, index_without, lemma_without, Workflows, WorkflowsView};
use crate::request::{KeyView, RequestKey};
use crate::status::{failed, record_key, stage_rank, succeeded, with_output, with_queue_item, with_stage, StatusView, WorkflowStage, WorkflowState};

verus! {

/// Whether the workflow files are removed after a success or after a failure.
#[derive(Clone, Copy, Debug, PartialEq, Eq, Structural)]
pub enum FilesOutcome {
    Successful,
    Failed,
}

/// Where a run stands: the step whose outcome it waits for.
#[derive(Clone, Copy, Debug, PartialEq, Eq, Structural)]
pub enum Phase {
    CheckingHealth,
    PreparingPaths,
    ResolvingInput,
    WaitingForDownload,
    Downloading,
    Submitting,
    Encoding,
    LocatingOutput,
    WaitingForUpload,
    Uploading,
    RemovingFiles(FilesOutcome),
    Finished,
}

/// The work directories of one workflow and the path its input is downloaded to.
pub struct WorkPaths {
    pub input_dir: String,
    pub output_dir: String,
    pub input_path: String,
}

/// The plain-value form of the work paths.
pub struct PathsView {
    pub input_dir: Seq<char>,
    pub output_dir: Seq<char>,
    pub input_path: Seq<char>,
}

impl View for WorkPaths {
    type V = PathsView;

    open spec fn view(&self) -> PathsView {
        PathsView { input_dir: self.input_dir@, output_dir: self.output_dir@, input_path: self.input_path@ }
    }
}

/// How the step the run waited for ended.
pub enum Outcome {
    /// The step succeeded and has nothing to report.
    Completed,
    /// The work directories were created at these paths.
    Prepared(WorkPaths),
    /// EPGStation's video file for the input is this one.
    Resolved(InputVideo),
    /// Amatsukaze accepted the encode as this queue item.
    Submitted(i64),
    /// The encoded output has this file name and lies at this path.
    Located { filename: String, path: String },
    /// The step failed; the text describes why.
    Failed(String),
}

/// The plain-value form of an outcome.
pub enum OutcomeView {
    Completed,
    Prepared(PathsView),
    Resolved(InputVideo),
    Submitted(i64),
    Located { filename: Seq<char>, path: Seq<char> },
    Failed(Seq<char>),
}

impl View for Outcome {
    type V = OutcomeView;

    open spec fn view(&self) -> OutcomeView {
        match self {
            Outcome::Completed => OutcomeView::Completed,
            Outcome::Prepared(p) => OutcomeView::Prepared(p@),
            Outcome::Resolved(v) => OutcomeView::Resolved(*v),
            Outcome::Submitted(q) => OutcomeView::Submitted(*q),
            Outcome::Located { filename, path } => OutcomeView::Located { filename: filename@, path: path@ },
            Outcome::Failed(m) => OutcomeView::Failed(m@),
        }
    }
}

/// The step the caller carries out next, with what it works on.
pub enum Command {
    /// Ask Amatsukaze whether it is healthy.
    CheckHealth,
    /// Work out and create the input and output directories of the workflow for this input.
    PreparePaths { workflow_id: u128, input_filename: String },
    /// Find the recording's video file with this name in EPGStation.
    ResolveInput { recorded_id: u64, input_filename: String },
    /// Wait for a download slot.
    AcquireDownloadSlot,
    /// Download this video file to this path, then give the slot back.
    Download { video: InputVideo, input_path: String },
    /// Send this request to Amatsukaze's queue and find the queue item it made.
    SubmitEncode(QueueAddRequest),
    /// Wait until this Amatsukaze queue item has finished.
    AwaitEncode(i64),
    /// Find the encoded file of this input in this output directory.
    LocateOutput { input_path: String, output_dir: String },
    /// Wait for an upload slot.
    AcquireUploadSlot,
    /// Upload this file to EPGStation for this recording, then give the slot back.
    Upload { recorded_id: u64, file_path: String, sub_directory: String, view_name: String },
    /// Remove the workflow's directory.
    RemoveFiles(FilesOutcome),
    /// Nothing is left to do.
    Finish,
}

/// The plain-value form of a command.
pub enum CommandView {
    CheckHealth,
    PreparePaths { workflow_id: u128, input_filename: Seq<char> },
    ResolveInput { recorded_id: u64, input_filename: Seq<char> },
    AcquireDownloadSlot,
    Download { video: InputVideo, input_path: Seq<char> },
    SubmitEncode(QueueAddView),
    AwaitEncode(i64),
    LocateOutput { input_path: Seq<char>, output_dir: Seq<char> },
    AcquireUploadSlot,
    Upload { recorded_id: u64, file_path: Seq<char>, sub_directory: Seq<char>, view_name: Seq<char> },
    RemoveFiles(FilesOutcome),
    Finish,
}

impl View for Command {
    type V = CommandView;

    open spec fn view(&self) -> CommandView {
        match self {
            Command::CheckHealth => CommandView::CheckHealth,
            Command::PreparePaths { workflow_id, input_filename } =>
                CommandView::PreparePaths { workflow_id: *workflow_id, input_filename: input_filename@ },
            Command::ResolveInput { recorded_id, input_filename } =>
                CommandView::ResolveInput { recorded_id: *recorded_id, input_filename: input_filename@ },
            Command::AcquireDownloadSlot => CommandView::AcquireDownloadSlot,
            Command::Download { video, input_path } => CommandView::Download { video: *video, input_path: input_path@ },
            Command::SubmitEncode(req) => CommandView::SubmitEncode(req@),
            Command::AwaitEncode(q) => CommandView::AwaitEncode(*q),
            Command::LocateOutput { input_path, output_dir } =>
                CommandView::LocateOutput { input_path: input_path@, output_dir: output_dir@ },
            Command::AcquireUploadSlot => CommandView::AcquireUploadSlot,
            Command::Upload { recorded_id, file_path, sub_directory, view_name } => CommandView::Upload {
                recorded_id: *recorded_id,
                file_path: file_path@,
                sub_directory: sub_directory@,
                view_name: view_name@,
            },
            Command::RemoveFiles(f) => CommandView::RemoveFiles(*f),
            Command::Finish => CommandView::Finish,
        }
    }
}

/// One run of a workflow, with what its steps have found so far.
pub struct WorkflowRun {
    pub workflow_id: u128,
    pub key: RequestKey,
    pub keep_failed_files: bool,
    pub phase: Phase,
    pub paths: WorkPaths,
    pub video: InputVideo,
    pub queue_item_id: i64,
    pub output_path: String,
}

/// The plain-value form of a run.
pub struct RunView {
    pub workflow_id: u128,
    pub key: KeyView,
    pub keep_failed_files: bool,
    pub phase: Phase,
    pub paths: PathsView,
    pub video: InputVideo,
    pub queue_item_id: i64,
    pub output_path: Seq<char>,
}

impl View for WorkflowRun {
    type V = RunView;

    open spec fn view(&self) -> RunView {
        RunView {
            workflow_id: self.workflow_id,
            key: self.key@,
            keep_failed_files: self.keep_failed_files,
            phase: self.phase,
            paths: self.paths@,
            video: self.video,
            queue_item_id: self.queue_item_id,
            output_path: self.output_path@,
        }
    }
}

/// A run that has not yet checked Amatsukaze's health and has found nothing yet.
pub open spec fn initial_run(workflow_id: u128, key: KeyView, keep_failed_files: bool) -> RunView {
    RunView {
        workflow_id,
        key,
        keep_failed_files,
        phase: Phase::CheckingHealth,
        paths: PathsView { input_dir: Seq::empty(), output_dir: Seq::empty(), input_path: Seq::empty() },
        video: InputVideo { id: 0, size: 0 },
        queue_item_id: 0,
        output_path: Seq::empty(),
    }
}

/// The phases in which a step of the workflow proper is under way.
pub open spec fn is_active(phase: Phase) -> bool {
    !(phase is RemovingFiles) && phase != Phase::Finished
}

/// Whether an outcome can be the outcome of the step a run in `phase` waits for.
pub open spec fn fits(phase: Phase, outcome: OutcomeView) -> bool {
    match outcome {
        OutcomeView::Failed(_) => is_active(phase),
        OutcomeView::Prepared(_) => phase == Phase::PreparingPaths,
        OutcomeView::Resolved(_) => phase == Phase::ResolvingInput,
        OutcomeView::Submitted(_) => phase == Phase::Submitting,
        OutcomeView::Located { .. } => phase == Phase::LocatingOutput,
        OutcomeView::Completed => phase != Phase::PreparingPaths && phase != Phase::ResolvingInput
            && phase != Phase::Submitting && phase != Phase::LocatingOutput,
    }
}

/// The stage the status of a run in an active phase shows.
pub open spec fn phase_stage(phase: Phase) -> WorkflowStage {
    match phase {
        Phase::CheckingHealth => WorkflowStage::Accepted,
        Phase::PreparingPaths => WorkflowStage::Accepted,
        Phase::ResolvingInput => WorkflowStage::ResolvingInput,
        Phase::WaitingForDownload => WorkflowStage::WaitingForDownload,
        Phase::Downloading => WorkflowStage::Downloading,
        Phase::Submitting => WorkflowStage::SubmittingToAmatsukaze,
        Phase::Encoding => WorkflowStage::Encoding,
        Phase::LocatingOutput => WorkflowStage::LocatingOutput,
        Phase::WaitingForUpload => WorkflowStage::WaitingForUpload,
        Phase::Uploading => WorkflowStage::Uploading,
        Phase::RemovingFiles(_) => WorkflowStage::Completed,
        Phase::Finished => WorkflowStage::Completed,
    }
}

/// The command a run issues in its phase: the step it then waits for, with the request's
/// fields and what earlier steps found as arguments.
pub open spec fn command_for(r: RunView) -> CommandView {
    match r.phase {
        Phase::CheckingHealth => CommandView::CheckHealth,
        Phase::PreparingPaths => CommandView::PreparePaths { workflow_id: r.workflow_id, input_filename: r.key.input_filename },
        Phase::ResolvingInput => CommandView::ResolveInput { recorded_id: r.key.recorded_id, input_filename: r.key.input_filename },
        Phase::WaitingForDownload => CommandView::AcquireDownloadSlot,
        Phase::Downloading => CommandView::Download { video: r.video, input_path: r.paths.input_path },
        Phase::Submitting => CommandView::SubmitEncode(
            queue_add_spec(r.key.recorded_id, r.workflow_id, r.key.preset, r.paths.input_path, r.paths.input_dir, r.paths.output_dir),
        ),
        Phase::Encoding => CommandView::AwaitEncode(r.queue_item_id),
        Phase::LocatingOutput => CommandView::LocateOutput { input_path: r.paths.input_path, output_dir: r.paths.output_dir },
        Phase::WaitingForUpload => CommandView::AcquireUploadSlot,
        Phase::Uploading => CommandView::Upload {
            recorded_id: r.key.recorded_id,
            file_path: r.output_path,
            sub_directory: r.key.sub_directory,
            view_name: r.key.view_name,
        },
        Phase::RemovingFiles(f) => CommandView::RemoveFiles(f),
        Phase::Finished => CommandView::Finish,
    }
}

/// The run and the status table afterwards, when the step a run waited for ended with
/// `outcome` at time `now`.
pub open spec fn step(r: RunView, w: WorkflowsView, outcome: OutcomeView, now: Timestamp) -> (RunView, WorkflowsView) {
    let id = r.workflow_id;
    match r.phase {
        Phase::Finished => (r, w),
        Phase::RemovingFiles(_) => (RunView { phase: Phase::Finished, ..r }, w.release(r.key)),
        _ => match outcome {
            OutcomeView::Failed(message) => {
                let w1 = w.update(id, |s: StatusView| failed(s, message, now));
                if r.keep_failed_files {
                    (RunView { phase: Phase::Finished, ..r }, w1.release(r.key))
                } else {
                    (RunView { phase: Phase::RemovingFiles(FilesOutcome::Failed), ..r }, w1)
                }
            },
            OutcomeView::Prepared(p) => (
                RunView { phase: Phase::ResolvingInput, paths: p, ..r },
                w.update(id, |s: StatusView| with_stage(s, WorkflowStage::ResolvingInput, now)),
            ),
            OutcomeView::Resolved(v) => (
                RunView { phase: Phase::WaitingForDownload, video: v, ..r },
                w.update(id, |s: StatusView| with_stage(s, WorkflowStage::WaitingForDownload, now)),
            ),
            OutcomeView::Submitted(q) => (
                RunView { phase: Phase::Encoding, queue_item_id: q, ..r },
                w.update(id, |s: StatusView| with_queue_item(s, q, now)).update(
                    id,
                    |s: StatusView| with_stage(s, WorkflowStage::Encoding, now),
                ),
            ),
            OutcomeView::Located { filename, path } => (
                RunView { phase: Phase::WaitingForUpload, output_path: path, ..r },
                w.update(id, |s: StatusView| with_output(s, filename, now)).update(
                    id,
                    |s: StatusView| with_stage(s, WorkflowStage::WaitingForUpload, now),
                ),
            ),
            OutcomeView::Completed => match r.phase {
                Phase::CheckingHealth => (RunView { phase: Phase::PreparingPaths, ..r }, w),
                Phase::WaitingForDownload => (
                    RunView { phase: Phase::Downloading, ..r },
                    w.update(id, |s: StatusView| with_stage(s, WorkflowStage::Downloading, now)),
                ),
                Phase::Downloading => (
                    RunView { phase: Phase::Submitting, ..r },
                    w.update(id, |s: StatusView| with_stage(s, WorkflowStage::SubmittingToAmatsukaze, now)),
                ),
                Phase::Encoding => (
                    RunView { phase: Phase::LocatingOutput, ..r },
                    w.update(id, |s: StatusView| with_stage(s, WorkflowStage::LocatingOutput, now)),
                ),
                Phase::WaitingForUpload => (
                    RunView { phase: Phase::Uploading, ..r },
                    w.update(id, |s: StatusView| with_stage(s, WorkflowStage::Uploading, now)),
                ),
                Phase::Uploading => (
                    RunView { phase: Phase::RemovingFiles(FilesOutcome::Successful), ..r },
                    w.update(id, |s: StatusView| succeeded(s, now)),
                ),
                // A completed step is not the outcome of the steps that report a finding.
                _ => (r, w),
            },
        },
    }
}

/// Whether the step ending with `outcome` in `phase` writes a time to the status table: every
/// step of the workflow proper does, except a passed health check; removing the files and a
/// finished run write none.
pub open spec fn writes_time(phase: Phase, outcome: OutcomeView) -> bool {
    is_active(phase) && !(phase == Phase::CheckingHealth && outcome is Completed)
}

/// A step that writes no time has the same effect whatever the time.
pub proof fn law_step_without_time(r: RunView, w: WorkflowsView, outcome: OutcomeView, t1: Timestamp, t2: Timestamp)
    requires
        !writes_time(r.phase, outcome),
    ensures
        step(r, w, outcome, t1) == step(r, w, outcome, t2),
{
}

/// While a workflow proper is under way, each successful step moves its status to the stage of
/// the next step, in the fixed order of stages, and marks it running; the last step marks it
/// succeeded and completed.
pub proof fn law_stages_advance_in_order(r: RunView, w: WorkflowsView, outcome: OutcomeView, t: Timestamp)
    requires
        w.wf(),
        is_active(r.phase),
        fits(r.phase, outcome),
        !(outcome is Failed),
        w.statuses.contains_key(r.workflow_id),
        w.statuses[r.workflow_id].stage == phase_stage(r.phase),
    ensures
        ({
            let (r1, w1) = step(r, w, outcome, t);
            let before = w.statuses[r.workflow_id];
            let after = w1.statuses[r.workflow_id];
            &&& w1.statuses.contains_key(r.workflow_id)
            &&& is_active(r1.phase) ==> after.stage == phase_stage(r1.phase)
            &&& stage_rank(before.stage) <= stage_rank(after.stage) <= stage_rank(before.stage) + 1
            &&& r1.phase != Phase::PreparingPaths ==> after.updated_at == t
            &&& is_active(r1.phase) && r1.phase != Phase::PreparingPaths ==> after.state == WorkflowState::Running
            &&& !is_active(r1.phase) ==> r.phase == Phase::Uploading && after == succeeded(before, t)
                && r1.phase == Phase::RemovingFiles(FilesOutcome::Successful)
            &&& after.created_at == before.created_at
            &&& after.error == before.error
        }),
{
}

/// A failed step marks the workflow failed: its status records the stage it was at, the error
/// message and the failure time, keeps its queue item, and the workflow files are removed
/// unless failed files are kept, in which case the run finishes at once.
pub proof fn law_failure_is_recorded(r: RunView, w: WorkflowsView, message: Seq<char>, t: Timestamp)
    requires
        w.wf(),
        is_active(r.phase),
        w.statuses.contains_key(r.workflow_id),
    ensures
        ({
            let (r1, w1) = step(r, w, OutcomeView::Failed(message), t);
            let before = w.statuses[r.workflow_id];
            let after = w1.statuses[r.workflow_id];
            &&& after.state == WorkflowState::Failed
            &&& after.stage == WorkflowStage::Failed
            &&& after.failed_at == Some(before.stage)
            &&& after.error == Some(message)
            &&& after.updated_at == t
            &&& after.queue_item_id == before.queue_item_id
            &&& after.output_filename == before.output_filename
            &&& r.keep_failed_files ==> r1.phase == Phase::Finished && command_for(r1) == CommandView::Finish
            &&& !r.keep_failed_files ==> r1.phase == Phase::RemovingFiles(FilesOutcome::Failed)
                && command_for(r1) == CommandView::RemoveFiles(FilesOutcome::Failed)
        }),
{
}

/// A run keeps its request indexed to its workflow until it finishes, and when it finishes the
/// request is no longer indexed, so that the same request can start a new workflow.
pub proof fn law_request_released_exactly_at_finish(r: RunView, w: WorkflowsView, outcome: OutcomeView, t: Timestamp)
    requires
        w.wf(),
        r.phase != Phase::Finished,
        fits(r.phase, outcome),
    ensures
        ({
            let (r1, w1) = step(r, w, outcome, t);
            &&& w1.wf()
            &&& r1.phase != Phase::Finished ==> w1.index == w.index
            &&& r1.phase == Phase::Finished ==> index_lookup(w1.index, r.key) is None
                && command_for(r1) == CommandView::Finish
        }),
{
    lemma_without(w.index, r.key);
    lemma_step_wf(r, w, outcome, t);
    if let OutcomeView::Failed(m) = outcome {
        lemma_without(w.update(r.workflow_id, |s: StatusView| failed(s, m, t)).index, r.key);
    }
}

/// A step changes no status record but that of its own workflow.
pub proof fn law_other_workflows_untouched(r: RunView, w: WorkflowsView, outcome: OutcomeView, t: Timestamp, other: u128)
    requires
        other != r.workflow_id,
    ensures
        ({
            let (r1, w1) = step(r, w, outcome, t);
            &&& w1.statuses.contains_key(other) == w.statuses.contains_key(other)
            &&& w.statuses.contains_key(other) ==> w1.statuses[other] == w.statuses[other]
        }),
{
}

/// No step changes which workflows have a record, nor the request any record was made for;
/// so the record of the run's workflow keeps carrying the fields of the request the run serves.
pub proof fn law_step_keeps_records_request(r: RunView, w: WorkflowsView, outcome: OutcomeView, t: Timestamp)
    ensures
        ({
            let (r1, w1) = step(r, w, outcome, t);
            &&& w1.statuses.dom() == w.statuses.dom()
            &&& forall|id: u128| #[trigger] w.statuses.contains_key(id) ==> record_key(w1.statuses[id]) == record_key(w.statuses[id])
            &&& w.statuses.contains_key(r.workflow_id) && record_key(w.statuses[r.workflow_id]) == r.key
                ==> record_key(w1.statuses[r1.workflow_id]) == r1.key
        }),
{
    let (r1, w1) = step(r, w, outcome, t);
    assert(w1.statuses.dom() =~= w.statuses.dom());
}

/// A step keeps the run's identity and request: only its phase and its findings change, and a
/// finding is only ever the one the step reported.
pub proof fn law_step_keeps_request(r: RunView, w: WorkflowsView, outcome: OutcomeView, t: Timestamp)
    ensures
        ({
            let (r1, w1) = step(r, w, outcome, t);
            &&& r1.workflow_id == r.workflow_id
            &&& r1.key == r.key
            &&& r1.keep_failed_files == r.keep_failed_files
            &&& r1.paths == (match outcome {
                OutcomeView::Prepared(p) => if is_active(r.phase) { p } else { r.paths },
                _ => r.paths,
            })
            &&& r1.video == (match outcome {
                OutcomeView::Resolved(v) => if is_active(r.phase) { v } else { r.video },
                _ => r.video,
            })
            &&& r1.queue_item_id == (match outcome {
                OutcomeView::Submitted(q) => if is_active(r.phase) { q } else { r.queue_item_id },
                _ => r.queue_item_id,
            })
            &&& r1.output_path == (match outcome {
                OutcomeView::Located { filename, path } => if is_active(r.phase) { path } else { r.output_path },
                _ => r.output_path,
            })
        }),
{
}

/// A record of a workflow that ended successfully.
pub open spec fn completed_record(s: StatusView) -> bool {
    &&& s.state == WorkflowState::Succeeded
    &&& s.stage == WorkflowStage::Completed
    &&& s.failed_at is None
    &&& s.error is None
}

/// A record of a workflow that failed at one of the stages of the workflow proper.
pub open spec fn failed_record(s: StatusView) -> bool {
    &&& s.state == WorkflowState::Failed
    &&& s.stage == WorkflowStage::Failed
    &&& s.error is Some
    &&& s.failed_at matches Some(at) && at != WorkflowStage::Completed && at != WorkflowStage::Failed
}

/// What the status of a run's workflow shows in each phase of the run: the stage of the step
/// under way (queued until the input is resolved, running after), completed once the upload
/// succeeded, failed once a step failed.
pub open spec fn run_consistent(r: RunView, s: StatusView) -> bool {
    match r.phase {
        Phase::RemovingFiles(FilesOutcome::Successful) => completed_record(s),
        Phase::RemovingFiles(FilesOutcome::Failed) => failed_record(s),
        Phase::Finished => completed_record(s) || failed_record(s),
        _ => {
            &&& s.stage == phase_stage(r.phase)
            &&& s.failed_at is None
            &&& s.error is None
            &&& s.state == if r.phase == Phase::CheckingHealth || r.phase == Phase::PreparingPaths {
                WorkflowState::Queued
            } else {
                WorkflowState::Running
            }
        },
    }
}

/// How the stage of a workflow may change in one step: it stays, moves on to the next stage
/// in the fixed order, or becomes `Failed` from a stage before `Completed`.
pub open spec fn stage_moves(before: WorkflowStage, after: WorkflowStage) -> bool {
    ||| after == before
    ||| before != WorkflowStage::Failed && after != WorkflowStage::Failed
        && stage_rank(after) == stage_rank(before) + 1
    ||| before != WorkflowStage::Failed && before != WorkflowStage::Completed && after == WorkflowStage::Failed
}

/// Every step that fits the run's phase keeps the status consistent with the run, moves the
/// stage by at most one place in the fixed order (or to `Failed`), and marks the workflow
/// failed exactly when the step failed.
pub proof fn law_step_keeps_run_consistent(r: RunView, w: WorkflowsView, outcome: OutcomeView, t: Timestamp)
    requires
        w.wf(),
        w.statuses.contains_key(r.workflow_id),
        run_consistent(r, w.statuses[r.workflow_id]),
        fits(r.phase, outcome),
    ensures
        ({
            let (r1, w1) = step(r, w, outcome, t);
            let before = w.statuses[r.workflow_id];
            let after = w1.statuses[r.workflow_id];
            &&& w1.wf()
            &&& w1.statuses.contains_key(r.workflow_id)
            &&& run_consistent(r1, after)
            &&& stage_moves(before.stage, after.stage)
            &&& (after.state == WorkflowState::Failed) == (before.state == WorkflowState::Failed || outcome is Failed)
        }),
{
    lemma_step_wf(r, w, outcome, t);
}

/// The run, the table and the commands issued after the outcomes `outcomes[i..]`, one after
/// another.
pub open spec fn run_from(r: RunView, w: WorkflowsView, outcomes: Seq<OutcomeView>, i: int, t: Timestamp) -> (RunView, WorkflowsView, Seq<CommandView>)
    decreases outcomes.len() - i,
{
    if 0 <= i < outcomes.len() {
        let (r1, w1) = step(r, w, outcomes[i], t);
        let (r2, w2, cs) = run_from(r1, w1, outcomes, i + 1, t);
        (r2, w2, seq![command_for(r1)] + cs)
    } else {
        (r, w, seq![])
    }
}

/// The stage of the run's workflow after each of the outcomes `outcomes[i..]`.
pub open spec fn stage_trace(r: RunView, w: WorkflowsView, outcomes: Seq<OutcomeView>, i: int, t: Timestamp) -> Seq<WorkflowStage>
    decreases outcomes.len() - i,
{
    if 0 <= i < outcomes.len() {
        let (r1, w1) = step(r, w, outcomes[i], t);
        seq![w1.statuses[r.workflow_id].stage] + stage_trace(r1, w1, outcomes, i + 1, t)
    } else {
        seq![]
    }
}

/// Whether each of the outcomes `outcomes[i..]` fits the phase the run is in when it comes.
pub open spec fn fits_from(r: RunView, w: WorkflowsView, outcomes: Seq<OutcomeView>, i: int, t: Timestamp) -> bool
    decreases outcomes.len() - i,
{
    if 0 <= i < outcomes.len() {
        let (r1, w1) = step(r, w, outcomes[i], t);
        fits(r.phase, outcomes[i]) && fits_from(r1, w1, outcomes, i + 1, t)
    } else {
        true
    }
}

/// Up to the first `Failed`, each stage written is at least as late as `start` and as every
/// earlier one.
pub open spec fn stages_monotone(start: WorkflowStage, trace: Seq<WorkflowStage>) -> bool {
    forall|m: int, k: int|
        0 <= m <= k < trace.len() && #[trigger] trace[k] != WorkflowStage::Failed ==> #[trigger] trace[m]
            != WorkflowStage::Failed && stage_rank(start) <= stage_rank(trace[m]) <= stage_rank(trace[k])
}

/// Every stage after `start` and up to a stage written (other than `Failed`) was written on the
/// way there.
pub open spec fn stages_cover(start: WorkflowStage, trace: Seq<WorkflowStage>) -> bool {
    forall|k: int, st: WorkflowStage|
        #![trigger trace[k], stage_rank(st)]
        0 <= k < trace.len() && trace[k] != WorkflowStage::Failed && st != WorkflowStage::Failed
            && stage_rank(start) < stage_rank(st) <= stage_rank(trace[k])
            ==> exists|m: int| 0 <= m <= k && #[trigger] trace[m] == st
}

/// The stages written one after another, starting from `start`, pass through the fixed order
/// of stages without skipping or going back, so that up to the first `Failed` they form a
/// prefix of the order that follows `start`.
pub open spec fn stages_in_prefix_order(start: WorkflowStage, trace: Seq<WorkflowStage>) -> bool {
    stages_monotone(start, trace) && stages_cover(start, trace)
}

/// Stages that move one place at a time (see `stage_moves`).
pub open spec fn moves_from(start: WorkflowStage, trace: Seq<WorkflowStage>) -> bool {
    &&& start != WorkflowStage::Failed
    &&& trace.len() > 0 ==> stage_moves(start, trace[0])
    &&& forall|k: int| 0 <= k < trace.len() - 1 ==> stage_moves(#[trigger] trace[k], trace[k + 1])
}

/// Dropping the last stage keeps stages moving one place at a time.
proof fn lemma_moves_drop_last(start: WorkflowStage, trace: Seq<WorkflowStage>)
    requires
        moves_from(start, trace),
        trace.len() > 0,
    ensures
        moves_from(start, trace.drop_last()),
{
    let p = trace.drop_last();
    assert forall|k: int| 0 <= k < p.len() - 1 implies stage_moves(#[trigger] p[k], p[k + 1]) by {
        assert(p[k] == trace[k] && p[k + 1] == trace[k + 1]);
    }
}

/// Stages that move one place at a time never go back.
#[verifier::spinoff_prover]
#[verifier::rlimit(40)]
proof fn lemma_moves_monotone(start: WorkflowStage, trace: Seq<WorkflowStage>)
    requires
        moves_from(start, trace),
    ensures
        stages_monotone(start, trace),
    decreases trace.len(),
{
    if trace.len() > 0 {
        let n = trace.len() - 1;
        let p = trace.drop_last();
        lemma_moves_drop_last(start, trace);
        lemma_moves_monotone(start, p);
        if n > 0 {
            assert(stage_moves(trace[n - 1], trace[n]));
        }
        assert forall|m: int, k: int|
            0 <= m <= k < trace.len() && #[trigger] trace[k] != WorkflowStage::Failed implies #[trigger] trace[m]
                != WorkflowStage::Failed && stage_rank(start) <= stage_rank(trace[m]) <= stage_rank(trace[k]) by {
            if k < n {
                assert(p[m] == trace[m]);
                assert(p[k] == trace[k]);
            } else if m < n {
                assert(p[m] == trace[m]);
                assert(p[n - 1] == trace[n - 1]);
            }
        }
    }
}

/// The last stage of stages that move one place at a time skips none, given that the stages
/// before it skip none.
proof fn lemma_cover_last(start: WorkflowStage, trace: Seq<WorkflowStage>, st: WorkflowStage)
    requires
        moves_from(start, trace),
        trace.len() > 0,
        stages_cover(start, trace.drop_last()),
        trace.last() != WorkflowStage::Failed,
        st != WorkflowStage::Failed,
        stage_rank(start) < stage_rank(st) <= stage_rank(trace.last()),
    ensures
        exists|m: int| 0 <= m < trace.len() && #[trigger] trace[m] == st,
{
    let n = trace.len() - 1;
    let p = trace.drop_last();
    if n == 0 {
        assert(stage_moves(start, trace[0]));
        assert(trace[n] == st);
    } else {
        assert(stage_moves(trace[n - 1], trace[n]));
        if stage_rank(st) <= stage_rank(trace[n - 1]) {
            assert(p[n - 1] == trace[n - 1]);
            assert(p[n - 1] != WorkflowStage::Failed);
            let m = choose|m: int| 0 <= m <= n - 1 && #[trigger] p[m] == st;
            assert(trace[m] == p[m]);
        } else {
            assert(trace[n] == st);
        }
    }
}

/// Stages that move one place at a time skip none.
proof fn lemma_moves_cover(start: WorkflowStage, trace: Seq<WorkflowStage>)
    requires
        moves_from(start, trace),
    ensures
        stages_cover(start, trace),
    decreases trace.len(),
{
    if trace.len() > 0 {
        let n = trace.len() - 1;
        let p = trace.drop_last();
        lemma_moves_drop_last(start, trace);
        lemma_moves_cover(start, p);
        assert forall|k: int, st: WorkflowStage|
            0 <= k < trace.len() && trace[k] != WorkflowStage::Failed && st != WorkflowStage::Failed
                && stage_rank(start) < #[trigger] stage_rank(st) <= stage_rank(#[trigger] trace[k])
            implies exists|m: int| 0 <= m <= k && #[trigger] trace[m] == st by {
            if k < n {
                assert(p[k] == trace[k]);
                let m = choose|m: int| 0 <= m <= k && #[trigger] p[m] == st;
                assert(trace[m] == p[m]);
            } else {
                lemma_cover_last(start, trace, st);
            }
        }
    }
}

/// A sequence of stages that moves one place at a time (see `stage_moves`) from a stage other
/// than `Failed` is in prefix order.
pub proof fn lemma_moves_in_prefix_order(start: WorkflowStage, trace: Seq<WorkflowStage>)
    requires
        moves_from(start, trace),
    ensures
        stages_in_prefix_order(start, trace),
{
    lemma_moves_monotone(start, trace);
    lemma_moves_cover(start, trace);
}

/// Over a whole run, the stages written to the workflow's status follow the fixed order one
/// place at a time, or turn to `Failed` from a stage before `Completed`; the status stays
/// consistent with the run; and the workflow ends failed exactly when one of the steps failed,
/// so that a run that finishes without a failed step has its workflow succeeded and completed.
pub proof fn law_run_stages_in_order(r: RunView, w: WorkflowsView, outcomes: Seq<OutcomeView>, t: Timestamp)
    requires
        w.wf(),
        w.statuses.contains_key(r.workflow_id),
        run_consistent(r, w.statuses[r.workflow_id]),
        w.statuses[r.workflow_id].state != WorkflowState::Failed,
        fits_from(r, w, outcomes, 0, t),
    ensures
        ({
            let (r1, w1, cmds) = run_from(r, w, outcomes, 0, t);
            let trace = stage_trace(r, w, outcomes, 0, t);
            let before = w.statuses[r.workflow_id];
            let after = w1.statuses[r.workflow_id];
            &&& w1.wf()
            &&& w1.statuses.contains_key(r.workflow_id)
            &&& run_consistent(r1, after)
            &&& cmds.len() == outcomes.len()
            &&& trace.len() == outcomes.len()
            &&& outcomes.len() > 0 ==> stage_moves(before.stage, trace[0])
            &&& forall|k: int| 0 <= k < trace.len() - 1 ==> stage_moves(#[trigger] trace[k], trace[k + 1])
            &&& stages_in_prefix_order(before.stage, trace)
            &&& outcomes.len() > 0 ==> trace.last() == after.stage
            &&& (after.state == WorkflowState::Failed) == (exists|k: int| 0 <= k < outcomes.len() && #[trigger] outcomes[k] is Failed)
            &&& r1.phase == Phase::Finished ==> (completed_record(after) || failed_record(after))
            &&& r1.phase == Phase::Finished ==> (completed_record(after)
                <==> !exists|k: int| 0 <= k < outcomes.len() && #[trigger] outcomes[k] is Failed)
        }),
{
    lemma_run_from(r, w, outcomes, 0, t);
    lemma_moves_in_prefix_order(w.statuses[r.workflow_id].stage, stage_trace(r, w, outcomes, 0, t));
}

/// The induction behind `law_run_stages_in_order`, from the outcome at `i` on.
proof fn lemma_run_from(r: RunView, w: WorkflowsView, outcomes: Seq<OutcomeView>, i: int, t: Timestamp)
    requires
        0 <= i <= outcomes.len(),
        w.wf(),
        w.statuses.contains_key(r.workflow_id),
        run_consistent(r, w.statuses[r.workflow_id]),
        fits_from(r, w, outcomes, i, t),
    ensures
        ({
            let (r1, w1, cmds) = run_from(r, w, outcomes, i, t);
            let trace = stage_trace(r, w, outcomes, i, t);
            let before = w.statuses[r.workflow_id];
            let after = w1.statuses[r.workflow_id];
            &&& w1.wf()
            &&& w1.statuses.contains_key(r.workflow_id)
            &&& run_consistent(r1, after)
            &&& r1.workflow_id == r.workflow_id
            &&& cmds.len() == outcomes.len() - i
            &&& trace.len() == outcomes.len() - i
            &&& i < outcomes.len() ==> stage_moves(before.stage, trace[0])
            &&& forall|k: int| 0 <= k < trace.len() - 1 ==> stage_moves(#[trigger] trace[k], trace[k + 1])
            &&& i < outcomes.len() ==> trace.last() == after.stage
            &&& i == outcomes.len() ==> after == before
            &&& (after.state == WorkflowState::Failed) == (before.state == WorkflowState::Failed
                || exists|k: int| i <= k < outcomes.len() && #[trigger] outcomes[k] is Failed)
            &&& r1.phase == Phase::Finished ==> (completed_record(after) || failed_record(after))
        }),
    decreases outcomes.len() - i,
{
    if i < outcomes.len() {
        let id = r.workflow_id;
        let (r1, w1) = step(r, w, outcomes[i], t);
        law_step_keeps_run_consistent(r, w, outcomes[i], t);
        law_step_keeps_request(r, w, outcomes[i], t);
        lemma_run_from(r1, w1, outcomes, i + 1, t);
        let tail = stage_trace(r1, w1, outcomes, i + 1, t);
        let trace = stage_trace(r, w, outcomes, i, t);
        assert(trace == seq![w1.statuses[id].stage] + tail);
        assert forall|k: int| 0 <= k < trace.len() - 1 implies stage_moves(#[trigger] trace[k], trace[k + 1]) by {
            if k > 0 {
                assert(trace[k] == tail[k - 1]);
                assert(trace[k + 1] == tail[k]);
            }
        }
        let after = run_from(r, w, outcomes, i, t).1.statuses[id];
        if after.state == WorkflowState::Failed && w.statuses[id].state != WorkflowState::Failed {
            if !(outcomes[i] is Failed) {
                let k = choose|k: int| i + 1 <= k < outcomes.len() && #[trigger] outcomes[k] is Failed;
                assert(i <= k < outcomes.len() && outcomes[k] is Failed);
            }
        }
        if exists|k: int| i <= k < outcomes.len() && #[trigger] outcomes[k] is Failed {
            let k = choose|k: int| i <= k < outcomes.len() && #[trigger] outcomes[k] is Failed;
            if k > i {
                assert(i + 1 <= k < outcomes.len() && outcomes[k] is Failed);
            }
        }
    }
}

/// The outcomes of a run in which every step succeeds: the work paths are `paths`, the input
/// is `video`, Amatsukaze takes the encode as queue item `q`, and the output is named `f` and
/// lies at `output_path`.
pub open spec fn clean_outcomes(paths: PathsView, video: InputVideo, q: i64, f: Seq<char>, output_path: Seq<char>) -> Seq<OutcomeView> {
    seq![
        OutcomeView::Completed,
        OutcomeView::Prepared(paths),
        OutcomeView::Resolved(video),
        OutcomeView::Completed,
        OutcomeView::Completed,
        OutcomeView::Submitted(q),
        OutcomeView::Completed,
        OutcomeView::Located { filename: f, path: output_path },
        OutcomeView::Completed,
        OutcomeView::Completed,
        OutcomeView::Completed,
    ]
}

/// The commands of a run for workflow `id` and request `key` in which every step succeeds,
/// with the findings of `clean_outcomes`.
pub open spec fn clean_commands(id: u128, key: KeyView, paths: PathsView, video: InputVideo, q: i64, output_path: Seq<char>) -> Seq<CommandView> {
    seq![
        CommandView::PreparePaths { workflow_id: id, input_filename: key.input_filename },
        CommandView::ResolveInput { recorded_id: key.recorded_id, input_filename: key.input_filename },
        CommandView::AcquireDownloadSlot,
        CommandView::Download { video, input_path: paths.input_path },
        CommandView::SubmitEncode(
            queue_add_spec(key.recorded_id, id, key.preset, paths.input_path, paths.input_dir, paths.output_dir),
        ),
        CommandView::AwaitEncode(q),
        CommandView::LocateOutput { input_path: paths.input_path, output_dir: paths.output_dir },
        CommandView::AcquireUploadSlot,
        CommandView::Upload {
            recorded_id: key.recorded_id,
            file_path: output_path,
            sub_directory: key.sub_directory,
            view_name: key.view_name,
        },
        CommandView::RemoveFiles(FilesOutcome::Successful),
        CommandView::Finish,
    ]
}

/// A run in which every step succeeds downloads the resolved video to the input path, sends
/// the input to Amatsukaze with the request's preset, waits for that queue item, uploads the
/// located output with the request's recorded id, sub directory and view name, in this order;
/// it ends with its workflow succeeded and completed, recording the queue item and the output,
/// removes its files, and releases its request.
pub proof fn law_clean_run_succeeds(
    r: RunView,
    w: WorkflowsView,
    paths: PathsView,
    video: InputVideo,
    q: i64,
    f: Seq<char>,
    output_path: Seq<char>,
    t: Timestamp,
)
    requires
        w.wf(),
        r.phase == Phase::CheckingHealth,
        w.statuses.contains_key(r.workflow_id),
    ensures
        ({
            let (r1, w1, cmds) = run_from(r, w, clean_outcomes(paths, video, q, f, output_path), 0, t);
            let before = w.statuses[r.workflow_id];
            let after = w1.statuses[r.workflow_id];
            &&& r1.phase == Phase::Finished
            &&& cmds == clean_commands(r.workflow_id, r.key, paths, video, q, output_path)
            &&& after.state == WorkflowState::Succeeded
            &&& after.stage == WorkflowStage::Completed
            &&& after.queue_item_id == Some(q)
            &&& after.output_filename == Some(f)
            &&& after.error == before.error
            &&& after.failed_at == before.failed_at
            &&& after.created_at == before.created_at
            &&& index_lookup(w1.index, r.key) is None
        }),
{
    let o = clean_outcomes(paths, video, q, f, output_path);
    reveal_with_fuel(run_from, 12);
    let (r1, w1, cmds) = run_from(r, w, o, 0, t);
    assert(cmds =~= clean_commands(r.workflow_id, r.key, paths, video, q, output_path));
    lemma_without(w1.index, r.key);
    assert(w1.index == index_without(w.index, r.key));
    lemma_without(w.index, r.key);
}

/// Updating a record keeps the table's invariant when the update keeps the identifier.
pub proof fn lemma_update_wf(w: WorkflowsView, id: u128, f: spec_fn(StatusView) -> StatusView)
    requires
        w.wf(),
        w.statuses.contains_key(id) ==> f(w.statuses[id]).workflow_id == w.statuses[id].workflow_id,
    ensures
        w.update(id, f).wf(),
{
}

/// Releasing a request keeps the table's invariant.
pub proof fn lemma_release_wf(w: WorkflowsView, key: KeyView)
    requires
        w.wf(),
    ensures
        w.release(key).wf(),
{
    lemma_without(w.index, key);
    let wi = index_without(w.index, key);
    assert forall|i: int| 0 <= i < wi.len() implies w.statuses.contains_key(#[trigger] wi[i].1) by {
        assert(w.index.contains(wi[i]));
        let j = choose|j: int| 0 <= j < w.index.len() && w.index[j] == wi[i];
        assert(w.statuses.contains_key(w.index[j].1));
    }
}

/// Every step keeps the table's invariant.
pub proof fn lemma_step_wf(r: RunView, w: WorkflowsView, outcome: OutcomeView, t: Timestamp)
    requires
        w.wf(),
    ensures
        step(r, w, outcome, t).1.wf(),
{
    lemma_release_wf(w, r.key);
    let id = r.workflow_id;
    match outcome {
        OutcomeView::Failed(m) => {
            lemma_update_wf(w, id, |s: StatusView| failed(s, m, t));
            lemma_release_wf(w.update(id, |s: StatusView| failed(s, m, t)), r.key);
        },
        OutcomeView::Submitted(q) => {
            lemma_update_wf(w, id, |s: StatusView| with_queue_item(s, q, t));
        },
        OutcomeView::Located { filename, path } => {
            lemma_update_wf(w, id, |s: StatusView| with_output(s, filename, t));
        },
        _ => {},
    }
}

impl WorkflowRun {
    /// A run of workflow `workflow_id` for the request `key`; the first step is the health check.
    pub fn start(workflow_id: u128, key: RequestKey, keep_failed_files: bool) -> (res: (WorkflowRun, Command))
        ensures
            res.0@ == initial_run(workflow_id, key@, keep_failed_files),
            res.1@ == command_for(res.0@),
            res.1@ == CommandView::CheckHealth,
    {
        let run = WorkflowRun {
            workflow_id,
            key,
            keep_failed_files,
            phase: Phase::CheckingHealth,
            paths: WorkPaths { input_dir: String::new(), output_dir: String::new(), input_path: String::new() },
            video: InputVideo { id: 0, size: 0 },
            queue_item_id: 0,
            output_path: String::new(),
        };
        assert(run@.paths == initial_run(workflow_id, key@, keep_failed_files).paths);
        (run, Command::CheckHealth)
    }

    /// The command of the run's current phase (see `command_for`).
    pub fn command(&self) -> (cmd: Command)
        ensures
            cmd@ == command_for(self@),
    {
        match self.phase {
            Phase::CheckingHealth => Command::CheckHealth,
            Phase::PreparingPaths => Command::PreparePaths {
                workflow_id: self.workflow_id,
                input_filename: self.key.input_filename.clone(),
            },
            Phase::ResolvingInput => Command::ResolveInput {
                recorded_id: self.key.recorded_id,
                input_filename: self.key.input_filename.clone(),
            },
            Phase::WaitingForDownload => Command::AcquireDownloadSlot,
            Phase::Downloading => Command::Download { video: self.video, input_path: self.paths.input_path.clone() },
            Phase::Submitting => Command::SubmitEncode(
                queue_add_request(
                    self.key.recorded_id,
                    self.workflow_id,
                    self.key.preset.as_str(),
                    self.paths.input_path.as_str(),
                    self.paths.input_dir.as_str(),
                    self.paths.output_dir.as_str(),
                ),
            ),
            Phase::Encoding => Command::AwaitEncode(self.queue_item_id),
            Phase::LocatingOutput => Command::LocateOutput {
                input_path: self.paths.input_path.clone(),
                output_dir: self.paths.output_dir.clone(),
            },
            Phase::WaitingForUpload => Command::AcquireUploadSlot,
            Phase::Uploading => Command::Upload {
                recorded_id: self.key.recorded_id,
                file_path: self.output_path.clone(),
                sub_directory: self.key.sub_directory.clone(),
                view_name: self.key.view_name.clone(),
            },
            Phase::RemovingFiles(f) => Command::RemoveFiles(f),
            Phase::Finished => Command::Finish,
        }
    }

    /// Records how the awaited step ended, at time `now`, and answers the next command.
    pub fn advance_at(&mut self, workflows: &mut Workflows, outcome: Outcome, now: Timestamp) -> (cmd: Command)
        requires
            fits(old(self).phase, outcome@),
        ensures
            (final(self)@, final(workflows)@) == step(old(self)@, old(workflows)@, outcome@, now),
            cmd@ == command_for(final(self)@),
            final(workflows)@.wf(),
    {
        proof { use_type_invariant(&*workflows); }
        let id = self.workflow_id;
        match self.phase {
            Phase::Finished => {},
            Phase::RemovingFiles(_) => {
                workflows.release(&self.key);
                self.phase = Phase::Finished;
            },
            _ => match outcome {
                Outcome::Failed(message) => {
                    workflows.mark_failed(id, message, now);
                    if self.keep_failed_files {
                        workflows.release(&self.key);
                        self.phase = Phase::Finished;
                    } else {
                        self.phase = Phase::RemovingFiles(FilesOutcome::Failed);
                    }
                },
                Outcome::Prepared(p) => {
                    workflows.set_stage(id, WorkflowStage::ResolvingInput, now);
                    self.paths = p;
                    self.phase = Phase::ResolvingInput;
                },
                Outcome::Resolved(v) => {
                    workflows.set_stage(id, WorkflowStage::WaitingForDownload, now);
                    self.video = v;
                    self.phase = Phase::WaitingForDownload;
                },
                Outcome::Submitted(q) => {
                    workflows.set_queue_item_id(id, q, now);
                    workflows.set_stage(id, WorkflowStage::Encoding, now);
                    self.queue_item_id = q;
                    self.phase = Phase::Encoding;
                },
                Outcome::Located { filename, path } => {
                    workflows.set_output(id, filename.as_str(), now);
                    workflows.set_stage(id, WorkflowStage::WaitingForUpload, now);
                    self.output_path = path;
                    self.phase = Phase::WaitingForUpload;
                },
                Outcome::Completed => {
                    let (next, stage) = match self.phase {
                        Phase::CheckingHealth => (Phase::PreparingPaths, None),
                        Phase::WaitingForDownload => (Phase::Downloading, Some(WorkflowStage::Downloading)),
                        Phase::Downloading => (Phase::Submitting, Some(WorkflowStage::SubmittingToAmatsukaze)),
                        Phase::Encoding => (Phase::LocatingOutput, Some(WorkflowStage::LocatingOutput)),
                        Phase::WaitingForUpload => (Phase::Uploading, Some(WorkflowStage::Uploading)),
                        _ => (Phase::RemovingFiles(FilesOutcome::Successful), None),
                    };
                    if self.phase == Phase::Uploading {
                        workflows.mark_succeeded(id, now);
                    } else if let Some(stage) = stage {
                        workflows.set_stage(id, stage, now);
                    }
                    self.phase = next;
                },
            },
        }
        self.command()
    }

    /// Records how the awaited step ended and answers the next command. The clock is read only
    /// when the step writes a time (see `writes_time`); when it then reads earlier than the Unix
    /// epoch nothing is recorded and the answer is `None`.
    pub fn advance(&mut self, workflows: &mut Workflows, outcome: Outcome) -> (cmd: Option<Command>)
        requires
            fits(old(self).phase, outcome@),
        ensures
            final(workflows)@.wf(),
            match cmd {
                Some(c) => c@ == command_for(final(self)@) && exists|t: Timestamp|
                    (final(self)@, final(workflows)@) == #[trigger] step(old(self)@, old(workflows)@, outcome@, t),
                None => final(self)@ == old(self)@ && final(workflows)@ == old(workflows)@,
            },
            !writes_time(old(self).phase, outcome@) ==> cmd is Some && forall|t: Timestamp|
                (final(self)@, final(workflows)@) == #[trigger] step(old(self)@, old(workflows)@, outcome@, t),
    {
        proof { use_type_invariant(&*workflows); }
        let writes = match self.phase {
            Phase::Finished | Phase::RemovingFiles(_) => false,
            Phase::CheckingHealth => match &outcome {
                Outcome::Completed => false,
                _ => true,
            },
            _ => true,
        };
        if !writes {
            let ghost r0 = self@;
            let ghost w0 = workflows@;
            let ghost o = outcome@;
            let t0 = Timestamp { seconds: 0, nanos: 0 };
            let c = self.advance_at(workflows, outcome, t0);
            proof {
                assert forall|t: Timestamp| (self@, workflows@) == #[trigger] step(r0, w0, o, t) by {
                    law_step_without_time(r0, w0, o, t0, t);
                }
            }
            return Some(c);
        }
        match now() {
            Some(t) => Some(self.advance_at(workflows, outcome, t)),
            None => None,
        }
    }
}

} // verus!
