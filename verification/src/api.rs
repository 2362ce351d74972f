//! What the HTTP API answers about workflows.
use vstd::prelude::*;
use crate::ids::{uuid_text, workflow_id_text};
use crate::registry::Submission;

verus! {

/// The answer to a workflow submission.
pub struct CreateWorkflowResponse {
    pub workflow_id: u128,
    /// Where the workflow's status can be read.
    pub status_url: String,
    pub existing: bool,
}

/// The path at which the status of workflow `workflow_id` is served.
pub fn status_url(workflow_id: u128) -> (url: String)
    ensures
        url@ == "/workflows/"@ + uuid_text(workflow_id),
{
    let mut url = "/workflows/".to_owned();
    url.append(workflow_id_text(workflow_id).as_str());
    url
}

/// The answer to a submission.
pub fn create_workflow_response(submission: Submission) -> (res: CreateWorkflowResponse)
    ensures
        res.workflow_id == submission.workflow_id,
        res.existing == submission.existing,
        res.status_url@ == "/workflows/"@ + uuid_text(submission.workflow_id),
{
    CreateWorkflowResponse {
        workflow_id: submission.workflow_id,
        status_url: status_url(submission.workflow_id),
        existing: submission.existing,
    }
}

} // verus!
