//! What the bridge reports about one workflow.
use vstd::prelude::*;
use crate::clock::{now, Timestamp};
use crate::request::{BridgeRequest, KeyView};

verus! {

/// Overall state of a workflow.
#[derive(Clone, Copy, Debug, PartialEq, Eq, Structural)]
pub enum WorkflowState {
    Queued,
    Running,
    Succeeded,
    Failed,
}

/// The step a workflow is at.
#[derive(Clone, Copy, Debug, PartialEq, Eq, Structural)]
pub enum WorkflowStage {
    Accepted,
    ResolvingInput,
    WaitingForDownload,
    Downloading,
    SubmittingToAmatsukaze,
    Encoding,
    LocatingOutput,
    WaitingForUpload,
    Uploading,
    Completed,
    Failed,
}

/// Position of a stage in the order in which a workflow passes through them.
pub open spec fn stage_rank(stage: WorkflowStage) -> int {
    match stage {
        WorkflowStage::Accepted => 0,
        WorkflowStage::ResolvingInput => 1,
        WorkflowStage::WaitingForDownload => 2,
        WorkflowStage::Downloading => 3,
        WorkflowStage::SubmittingToAmatsukaze => 4,
        WorkflowStage::Encoding => 5,
        WorkflowStage::LocatingOutput => 6,
        WorkflowStage::WaitingForUpload => 7,
        WorkflowStage::Uploading => 8,
        WorkflowStage::Completed => 9,
        WorkflowStage::Failed => 9,
    }
}

/// The status record of one workflow.
pub struct WorkflowStatus {
    pub workflow_id: u128,
    pub state: WorkflowState,
    pub stage: WorkflowStage,
    pub recorded_id: u64,
    pub input_filename: String,
    pub preset: String,
    pub sub_directory: String,
    pub view_name: String,
    pub created_at: Timestamp,
    pub updated_at: Timestamp,
    pub queue_item_id: Option<i64>,
    pub output_filename: Option<String>,
    pub failed_at: Option<WorkflowStage>,
    pub error: Option<String>,
}

/// The plain-value form of a status record.
pub struct StatusView {
    pub workflow_id: u128,
    pub state: WorkflowState,
    pub stage: WorkflowStage,
    pub recorded_id: u64,
    pub input_filename: Seq<char>,
    pub preset: Seq<char>,
    pub sub_directory: Seq<char>,
    pub view_name: Seq<char>,
    pub created_at: Timestamp,
    pub updated_at: Timestamp,
    pub queue_item_id: Option<i64>,
    pub output_filename: Option<Seq<char>>,
    pub failed_at: Option<WorkflowStage>,
    pub error: Option<Seq<char>>,
}

pub open spec fn text_option(s: Option<String>) -> Option<Seq<char>> {
    match s {
        Some(t) => Some(t@),
        None => None,
    }
}

impl View for WorkflowStatus {
    type V = StatusView;

    open spec fn view(&self) -> StatusView {
        StatusView {
            workflow_id: self.workflow_id,
            state: self.state,
            stage: self.stage,
            recorded_id: self.recorded_id,
            input_filename: self.input_filename@,
            preset: self.preset@,
            sub_directory: self.sub_directory@,
            view_name: self.view_name@,
            created_at: self.created_at,
            updated_at: self.updated_at,
            queue_item_id: self.queue_item_id,
            output_filename: text_option(self.output_filename),
            failed_at: self.failed_at,
            error: text_option(self.error),
        }
    }
}

/// The record of a workflow just accepted for `request` at `now`.
pub open spec fn fresh_status(workflow_id: u128, request: KeyView, now: Timestamp) -> StatusView {
    StatusView {
        workflow_id,
        state: WorkflowState::Queued,
        stage: WorkflowStage::Accepted,
        recorded_id: request.recorded_id,
        input_filename: request.input_filename,
        preset: request.preset,
        sub_directory: request.sub_directory,
        view_name: request.view_name,
        created_at: now,
        updated_at: now,
        queue_item_id: None,
        output_filename: None,
        failed_at: None,
        error: None,
    }
}

/// The record after the workflow moved on to `stage`.
pub open spec fn with_stage(s: StatusView, stage: WorkflowStage, now: Timestamp) -> StatusView {
    StatusView { state: WorkflowState::Running, stage, updated_at: now, ..s }
}

/// The record after Amatsukaze accepted the encode as queue item `queue_item_id`.
pub open spec fn with_queue_item(s: StatusView, queue_item_id: i64, now: Timestamp) -> StatusView {
    StatusView { queue_item_id: Some(queue_item_id), updated_at: now, ..s }
}

/// The record after the encoded output `filename` was found.
pub open spec fn with_output(s: StatusView, filename: Seq<char>, now: Timestamp) -> StatusView {
    StatusView { output_filename: Some(filename), updated_at: now, ..s }
}

/// The record of a workflow that finished successfully.
pub open spec fn succeeded(s: StatusView, now: Timestamp) -> StatusView {
    StatusView {
        state: WorkflowState::Succeeded,
        stage: WorkflowStage::Completed,
        updated_at: now,
        ..s
    }
}

/// The record of a workflow that failed with `message`; it remembers the stage it failed at.
pub open spec fn failed(s: StatusView, message: Seq<char>, now: Timestamp) -> StatusView {
    StatusView {
        state: WorkflowState::Failed,
        stage: WorkflowStage::Failed,
        failed_at: Some(s.stage),
        error: Some(message),
        updated_at: now,
        ..s
    }
}

/// The request a status record was made for: the five fields it copies from the request.
pub open spec fn record_key(s: StatusView) -> KeyView {
    KeyView {
        recorded_id: s.recorded_id,
        input_filename: s.input_filename,
        preset: s.preset,
        sub_directory: s.sub_directory,
        view_name: s.view_name,
    }
}

/// A fresh record is filed under its workflow's identifier, carries each field of its request
/// in the field of the same name, starts queued at the accepted stage with both times at the
/// moment of acceptance, and holds no queue item, output, failure or error.
pub proof fn law_fresh_status_copies_request(workflow_id: u128, request: KeyView, now: Timestamp)
    ensures
        ({
            let s = fresh_status(workflow_id, request, now);
            &&& s.workflow_id == workflow_id
            &&& s.recorded_id == request.recorded_id
            &&& s.input_filename == request.input_filename
            &&& s.preset == request.preset
            &&& s.sub_directory == request.sub_directory
            &&& s.view_name == request.view_name
            &&& record_key(s) == request
            &&& s.state == WorkflowState::Queued
            &&& s.stage == WorkflowStage::Accepted
            &&& s.created_at == now && s.updated_at == now
            &&& s.queue_item_id is None && s.output_filename is None
            &&& s.failed_at is None && s.error is None
        }),
{
}

/// No update of a record changes the request it was made for, its identifier or when it was
/// created.
pub proof fn law_updates_keep_request(s: StatusView, stage: WorkflowStage, q: i64, f: Seq<char>, m: Seq<char>, now: Timestamp)
    ensures
        record_key(with_stage(s, stage, now)) == record_key(s),
        record_key(with_queue_item(s, q, now)) == record_key(s),
        record_key(with_output(s, f, now)) == record_key(s),
        record_key(succeeded(s, now)) == record_key(s),
        record_key(failed(s, m, now)) == record_key(s),
        with_stage(s, stage, now).workflow_id == s.workflow_id && with_stage(s, stage, now).created_at == s.created_at,
        with_queue_item(s, q, now).workflow_id == s.workflow_id && with_queue_item(s, q, now).created_at == s.created_at,
        with_output(s, f, now).workflow_id == s.workflow_id && with_output(s, f, now).created_at == s.created_at,
        succeeded(s, now).workflow_id == s.workflow_id && succeeded(s, now).created_at == s.created_at,
        failed(s, m, now).workflow_id == s.workflow_id && failed(s, m, now).created_at == s.created_at,
{
}

impl WorkflowStatus {
    /// The record of a workflow accepted for `request` now; `None` when the clock reads earlier
    /// than the Unix epoch.
    pub fn new(workflow_id: u128, request: &BridgeRequest) -> (s: Option<WorkflowStatus>)
        ensures
            s matches Some(s) ==> s@ == fresh_status(workflow_id, request.key(), s.created_at),
    {
        match now() {
            Some(t) => Some(Self::new_at(workflow_id, request, t)),
            None => None,
        }
    }

    /// The record of a workflow accepted for `request` at `now`.
    pub fn new_at(workflow_id: u128, request: &BridgeRequest, now: Timestamp) -> (s: WorkflowStatus)
        ensures
            s@ == fresh_status(workflow_id, request.key(), now),
            record_key(s@) == request.key(),
    {
        WorkflowStatus {
            workflow_id,
            state: WorkflowState::Queued,
            stage: WorkflowStage::Accepted,
            recorded_id: request.recorded_id,
            input_filename: request.input_filename.clone(),
            preset: request.preset.clone(),
            sub_directory: request.sub_directory.clone(),
            view_name: request.view_name.clone(),
            created_at: now,
            updated_at: now,
            queue_item_id: None,
            output_filename: None,
            failed_at: None,
            error: None,
        }
    }
}

} // verus!
