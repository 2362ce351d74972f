use encode_bridge::clock::Timestamp;
use encode_bridge::epgstation::InputVideo;
use encode_bridge::registry::Workflows;
use encode_bridge::request::{BridgeRequest, RequestKey};
use encode_bridge::status::{WorkflowStage, WorkflowState};
use encode_bridge::workflow::{Command, FilesOutcome, Outcome, Phase, WorkPaths, WorkflowRun};

const ID: u128 = 0x0123_4567_89ab_4cde_8f01_2345_6789_abcd;

fn request() -> BridgeRequest {
    BridgeRequest {
        recorded_id: 11,
        input_filename: "video.m2ts".to_string(),
        preset: "NVEnc_HEVC".to_string(),
        sub_directory: "anime".to_string(),
        view_name: "HEVC".to_string(),
    }
}

fn at(seconds: u64) -> Timestamp {
    Timestamp { seconds, nanos: 0 }
}

fn paths() -> WorkPaths {
    WorkPaths {
        input_dir: "/work/w/input".to_string(),
        output_dir: "/work/w/output".to_string(),
        input_path: "/work/w/input/video.m2ts".to_string(),
    }
}

fn located() -> Outcome {
    Outcome::Located {
        filename: "video.mkv".to_string(),
        path: "/work/w/output/video.mkv".to_string(),
    }
}

/// A short text naming a command and its arguments.
fn describe(c: &Command) -> String {
    match c {
        Command::CheckHealth => "check-health".to_string(),
        Command::PreparePaths { workflow_id, input_filename } => format!("prepare {workflow_id:x} {input_filename}"),
        Command::ResolveInput { recorded_id, input_filename } => format!("resolve {recorded_id} {input_filename}"),
        Command::AcquireDownloadSlot => "download-slot".to_string(),
        Command::Download { video, input_path } => format!("download {} {} {input_path}", video.id, video.size),
        Command::SubmitEncode(r) => format!(
            "submit {} {} {} {} {} {} {}",
            r.dir_path, r.target_path, r.mode, r.dst_path, r.profile, r.priority, r.request_id
        ),
        Command::AwaitEncode(q) => format!("await {q}"),
        Command::LocateOutput { input_path, output_dir } => format!("locate {input_path} {output_dir}"),
        Command::AcquireUploadSlot => "upload-slot".to_string(),
        Command::Upload { recorded_id, file_path, sub_directory, view_name } => {
            format!("upload {recorded_id} {file_path} {sub_directory} {view_name}")
        }
        Command::RemoveFiles(FilesOutcome::Successful) => "remove successful".to_string(),
        Command::RemoveFiles(FilesOutcome::Failed) => "remove failed".to_string(),
        Command::Finish => "finish".to_string(),
    }
}

fn started(keep_failed_files: bool) -> (Workflows, WorkflowRun) {
    let mut w = Workflows::new();
    let s = w.submit_at(&request(), ID, at(0));
    let (run, first) = WorkflowRun::start(s.workflow_id, RequestKey::from(&request()), keep_failed_files);
    assert_eq!(describe(&first), "check-health");
    assert_eq!(run.phase, Phase::CheckingHealth);
    (w, run)
}

#[test]
fn clean_run_goes_through_every_stage() {
    let (mut w, mut run) = started(true);
    let steps: Vec<(Outcome, &str, Option<WorkflowStage>)> = vec![
        (Outcome::Completed, "prepare 123456789ab4cde8f0123456789abcd video.m2ts", Some(WorkflowStage::Accepted)),
        (Outcome::Prepared(paths()), "resolve 11 video.m2ts", Some(WorkflowStage::ResolvingInput)),
        (
            Outcome::Resolved(InputVideo { id: 5, size: 1024 }),
            "download-slot",
            Some(WorkflowStage::WaitingForDownload),
        ),
        (Outcome::Completed, "download 5 1024 /work/w/input/video.m2ts", Some(WorkflowStage::Downloading)),
        (
            Outcome::Completed,
            "submit /work/w/input /work/w/input/video.m2ts AutoBatch /work/w/output NVEnc_HEVC 3 \
             epgstation-recorded-11-01234567-89ab-4cde-8f01-23456789abcd",
            Some(WorkflowStage::SubmittingToAmatsukaze),
        ),
        (Outcome::Submitted(77), "await 77", Some(WorkflowStage::Encoding)),
        (Outcome::Completed, "locate /work/w/input/video.m2ts /work/w/output", Some(WorkflowStage::LocatingOutput)),
        (located(), "upload-slot", Some(WorkflowStage::WaitingForUpload)),
        (Outcome::Completed, "upload 11 /work/w/output/video.mkv anime HEVC", Some(WorkflowStage::Uploading)),
        (Outcome::Completed, "remove successful", Some(WorkflowStage::Completed)),
        (Outcome::Completed, "finish", None),
    ];
    let mut t = 1;
    for (outcome, command, stage) in steps {
        assert_eq!(describe(&run.advance_at(&mut w, outcome, at(t))), command);
        if let Some(stage) = stage {
            assert_eq!(w.workflow(ID).unwrap().stage, stage);
            // Until the files are removed the request stays indexed.
            assert_eq!(w.lookup(&RequestKey::from(&request())), Some(ID));
        }
        t += 1;
    }
    assert_eq!(run.phase, Phase::Finished);
    let s = w.workflow(ID).unwrap();
    assert_eq!(s.state, WorkflowState::Succeeded);
    assert_eq!(s.queue_item_id, Some(77));
    assert_eq!(s.output_filename.as_deref(), Some("video.mkv"));
    assert!(s.error.is_none() && s.failed_at.is_none());
    assert_eq!(s.updated_at, at(10));
    assert_eq!(w.lookup(&RequestKey::from(&request())), None);
    // A finished run stays finished.
    assert_eq!(describe(&run.advance_at(&mut w, Outcome::Completed, at(99))), "finish");
}

#[test]
fn health_check_does_not_change_the_stage() {
    let (mut w, mut run) = started(true);
    run.advance_at(&mut w, Outcome::Completed, at(5));
    let s = w.workflow(ID).unwrap();
    assert_eq!((s.state, s.stage, s.updated_at), (WorkflowState::Queued, WorkflowStage::Accepted, at(0)));
}

#[test]
fn failure_removes_files_unless_kept() {
    let (mut w, mut run) = started(false);
    run.advance_at(&mut w, Outcome::Completed, at(1));
    run.advance_at(&mut w, Outcome::Prepared(paths()), at(2));
    let next = run.advance_at(&mut w, Outcome::Failed("not found".to_string()), at(3));
    assert_eq!(describe(&next), "remove failed");
    let s = w.workflow(ID).unwrap();
    assert_eq!(s.state, WorkflowState::Failed);
    assert_eq!(s.stage, WorkflowStage::Failed);
    assert_eq!(s.failed_at, Some(WorkflowStage::ResolvingInput));
    assert_eq!(s.error.as_deref(), Some("not found"));
    assert_eq!(w.lookup(&RequestKey::from(&request())), Some(ID));
    assert_eq!(describe(&run.advance_at(&mut w, Outcome::Completed, at(4))), "finish");
    assert_eq!(w.lookup(&RequestKey::from(&request())), None);
}

#[test]
fn failure_with_kept_files_finishes_at_once() {
    let (mut w, mut run) = started(true);
    let next = run.advance_at(&mut w, Outcome::Failed("unhealthy".to_string()), at(3));
    assert_eq!(describe(&next), "finish");
    assert_eq!(run.phase, Phase::Finished);
    let s = w.workflow(ID).unwrap();
    assert_eq!(s.failed_at, Some(WorkflowStage::Accepted));
    assert_eq!(w.lookup(&RequestKey::from(&request())), None);
}

#[test]
fn failure_during_encode_keeps_the_queue_item() {
    let (mut w, mut run) = started(true);
    run.advance_at(&mut w, Outcome::Completed, at(1));
    run.advance_at(&mut w, Outcome::Prepared(paths()), at(1));
    run.advance_at(&mut w, Outcome::Resolved(InputVideo { id: 5, size: 9 }), at(1));
    run.advance_at(&mut w, Outcome::Completed, at(1));
    run.advance_at(&mut w, Outcome::Completed, at(1));
    assert_eq!(describe(&run.advance_at(&mut w, Outcome::Submitted(5), at(2))), "await 5");
    run.advance_at(&mut w, Outcome::Failed("ended".to_string()), at(3));
    let s = w.workflow(ID).unwrap();
    assert_eq!(s.failed_at, Some(WorkflowStage::Encoding));
    assert_eq!(s.queue_item_id, Some(5));
}

#[test]
fn current_command_repeats_the_last_answer() {
    let (mut w, mut run) = started(true);
    run.advance_at(&mut w, Outcome::Completed, at(1));
    let answered = run.advance_at(&mut w, Outcome::Prepared(paths()), at(2));
    assert_eq!(describe(&run.command()), describe(&answered));
}

#[test]
fn advance_reads_the_clock() {
    let (mut w, mut run) = started(true);
    run.advance(&mut w, Outcome::Completed).expect("the clock reads after 1970");
    let next = run.advance(&mut w, Outcome::Prepared(paths())).expect("the clock reads after 1970");
    assert_eq!(describe(&next), "resolve 11 video.m2ts");
    assert!(w.workflow(ID).unwrap().updated_at.seconds > 1_600_000_000);
}

#[test]
fn advance_without_a_time_to_write_always_answers() {
    let (mut w, mut run) = started(false);
    let next = run.advance(&mut w, Outcome::Completed).expect("a passed health check writes no time");
    assert_eq!(describe(&next), "prepare 123456789ab4cde8f0123456789abcd video.m2ts");
    run.advance(&mut w, Outcome::Failed("no space".to_string())).expect("the clock reads after 1970");
    let next = run.advance(&mut w, Outcome::Completed).expect("removing files writes no time");
    assert_eq!(describe(&next), "finish");
    let next = run.advance(&mut w, Outcome::Completed).expect("a finished run writes no time");
    assert_eq!(describe(&next), "finish");
}
