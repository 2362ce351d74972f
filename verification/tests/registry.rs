use encode_bridge::clock::{now, Timestamp};
use encode_bridge::registry::{Submission, Workflows};
use encode_bridge::request::{BridgeRequest, RequestKey};
use encode_bridge::status::{WorkflowStage, WorkflowState, WorkflowStatus};

fn request(recorded_id: u64) -> BridgeRequest {
    BridgeRequest {
        recorded_id,
        input_filename: "video.m2ts".to_string(),
        preset: "NVEnc_HEVC".to_string(),
        sub_directory: "anime".to_string(),
        view_name: "HEVC".to_string(),
    }
}

fn at(seconds: u64) -> Timestamp {
    Timestamp { seconds, nanos: 0 }
}

#[test]
fn new_submission_creates_a_queued_workflow() {
    let mut w = Workflows::new();
    let s = w.submit_at(&request(7), 42, at(100));
    assert_eq!(s, Submission { workflow_id: 42, existing: false });
    let status = w.workflow(42).unwrap();
    assert_eq!(status.workflow_id, 42);
    assert_eq!(status.state, WorkflowState::Queued);
    assert_eq!(status.stage, WorkflowStage::Accepted);
    assert_eq!(status.recorded_id, 7);
    assert_eq!(status.input_filename, "video.m2ts");
    assert_eq!(status.created_at, at(100));
    assert_eq!(status.updated_at, at(100));
    assert!(status.queue_item_id.is_none() && status.output_filename.is_none() && status.error.is_none());
    assert_eq!(w.lookup(&RequestKey::from(&request(7))), Some(42));
}

#[test]
fn resubmission_joins_the_running_workflow() {
    let mut w = Workflows::new();
    let first = w.submit_at(&request(7), 42, at(100));
    let second = w.submit_at(&request(7), 43, at(200));
    assert_eq!(second, Submission { workflow_id: first.workflow_id, existing: true });
    assert!(w.workflow(43).is_none());
    assert_eq!(w.workflow(42).unwrap().created_at, at(100));
}

#[test]
fn different_requests_get_different_workflows() {
    let mut w = Workflows::new();
    let a = w.submit_at(&request(7), 1, at(1));
    let b = w.submit_at(&request(8), 2, at(1));
    assert!(!a.existing && !b.existing);
    assert_ne!(a.workflow_id, b.workflow_id);
}

#[test]
fn release_lets_the_request_start_again() {
    let mut w = Workflows::new();
    w.submit_at(&request(7), 42, at(100));
    w.submit_at(&request(8), 50, at(100));
    w.release(&RequestKey::from(&request(7)));
    assert_eq!(w.lookup(&RequestKey::from(&request(7))), None);
    assert_eq!(w.lookup(&RequestKey::from(&request(8))), Some(50));
    let again = w.submit_at(&request(7), 43, at(300));
    assert_eq!(again, Submission { workflow_id: 43, existing: false });
    // The old record is still readable.
    assert!(w.workflow(42).is_some());
}

#[test]
fn random_submission_draws_a_v4_identifier() {
    let mut w = Workflows::new();
    let s = w.submit(&request(9)).expect("the clock reads after 1970");
    assert!(!s.existing);
    assert_eq!((s.workflow_id >> 76) & 0xf, 4);
    assert_eq!((s.workflow_id >> 62) & 0x3, 2);
    let again = w.submit(&request(9)).expect("the clock reads after 1970");
    assert_eq!(again, Submission { workflow_id: s.workflow_id, existing: true });
}

#[test]
fn stage_updates_and_failure() {
    let mut w = Workflows::new();
    w.submit_at(&request(7), 42, at(100));
    w.set_stage(42, WorkflowStage::Encoding, at(101));
    let s = w.workflow(42).unwrap();
    assert_eq!((s.state, s.stage, s.updated_at), (WorkflowState::Running, WorkflowStage::Encoding, at(101)));
    w.set_queue_item_id(42, 12, at(102));
    assert_eq!(w.workflow(42).unwrap().queue_item_id, Some(12));
    w.set_output(42, "video.mkv", at(103));
    assert_eq!(w.workflow(42).unwrap().output_filename.as_deref(), Some("video.mkv"));
    let (failed_at, queue_item) = w.mark_failed(42, "boom".to_string(), at(104));
    assert_eq!(failed_at, Some(WorkflowStage::Encoding));
    assert_eq!(queue_item, Some(12));
    let s = w.workflow(42).unwrap();
    assert_eq!(s.state, WorkflowState::Failed);
    assert_eq!(s.stage, WorkflowStage::Failed);
    assert_eq!(s.failed_at, Some(WorkflowStage::Encoding));
    assert_eq!(s.error.as_deref(), Some("boom"));
    assert_eq!(s.updated_at, at(104));
    assert_eq!(s.created_at, at(100));
}

#[test]
fn updates_of_unknown_workflows_change_nothing() {
    let mut w = Workflows::new();
    w.set_stage(1, WorkflowStage::Encoding, at(1));
    w.mark_succeeded(1, at(1));
    assert_eq!(w.mark_failed(1, "x".to_string(), at(1)), (None, None));
    assert!(w.workflow(1).is_none());
}

#[test]
fn mark_succeeded_completes() {
    let mut w = Workflows::new();
    w.submit_at(&request(7), 42, at(100));
    w.mark_succeeded(42, at(200));
    let s = w.workflow(42).unwrap();
    assert_eq!((s.state, s.stage), (WorkflowState::Succeeded, WorkflowStage::Completed));
}

#[test]
fn status_constructor_reads_the_clock_once() {
    let s = WorkflowStatus::new(5, &request(3)).expect("the clock reads after 1970");
    assert_eq!(s.created_at, s.updated_at);
    assert!(s.created_at.seconds > 1_600_000_000);
    assert!(s.created_at.nanos < 1_000_000_000);
    let t = now().expect("the clock reads after 1970");
    assert!(t.seconds >= s.created_at.seconds);
}
