use encode_bridge::amatsukaze::{
    find_submitted_item, health_verdict, output_matches, poll_encode, poll_output, poll_submitted,
    queue_add_request, u64_text, verify_health, EncodePoll, HealthError, LocatePoll, QueueItem,
    SubmitPoll, QUEUE_PRIORITY,
};

fn item(id: i64, src: &str, state: &str) -> QueueItem {
    QueueItem { id, src_path: src.to_string(), state: state.to_string(), state_label: String::new() }
}

#[test]
fn queue_request_contents() {
    let r = queue_add_request(
        123,
        0x0123_4567_89ab_4def_8123_4567_89ab_cdef,
        "NVEnc_HEVC",
        "C:\\work\\id\\input\\v.ts",
        "C:\\work\\id\\input",
        "C:\\work\\id\\output",
    );
    assert_eq!(r.request_id, "epgstation-recorded-123-01234567-89ab-4def-8123-456789abcdef");
    assert_eq!(r.mode, "AutoBatch");
    assert_eq!(r.priority, QUEUE_PRIORITY);
    assert_eq!(r.priority, 3);
    assert_eq!(r.profile, "NVEnc_HEVC");
    assert_eq!(r.dir_path, "C:\\work\\id\\input");
    assert_eq!(r.target_path, "C:\\work\\id\\input\\v.ts");
    assert_eq!(r.dst_path, "C:\\work\\id\\output");
    assert_eq!(u64_text(0), "0");
    assert_eq!(u64_text(18_446_744_073_709_551_615), "18446744073709551615");
}

#[test]
fn new_queue_item_is_found() {
    let items = vec![
        item(1, "C:/work/a/input/v.ts", "Complete"),
        item(2, "C:/work/b/input/w.ts", "Queue"),
        item(3, "C:/WORK/a/input/V.TS", "Queue"),
        item(4, "c:\\work\\a\\input\\v.ts", "Queue"),
    ];
    assert_eq!(find_submitted_item(&vec![1, 2], &items, "C:\\work\\a\\input\\v.ts", true), Some(2));
    assert_eq!(find_submitted_item(&vec![1, 2, 3, 4], &items, "C:\\work\\a\\input\\v.ts", true), None);
    assert_eq!(find_submitted_item(&vec![], &items, "C:\\work\\a\\input\\v.ts", false), None);
    assert_eq!(poll_submitted(&vec![1], &items, "C:/work/b/input/w.ts", true, false), SubmitPoll::Found(1));
    assert_eq!(poll_submitted(&vec![1, 2, 3, 4], &items, "x", true, false), SubmitPoll::Retry);
    assert_eq!(poll_submitted(&vec![1, 2, 3, 4], &items, "x", true, true), SubmitPoll::NotFound);
}

#[test]
fn encode_progress() {
    let items = vec![item(1, "a", "Complete"), item(2, "b", "Failed"), item(3, "c", "Encoding"), item(4, "d", "Canceled"), item(5, "e", "PreFailed")];
    assert_eq!(poll_encode(&items, 1, false), EncodePoll::Complete);
    assert_eq!(poll_encode(&items, 2, false), EncodePoll::Ended(1));
    assert_eq!(poll_encode(&items, 4, false), EncodePoll::Ended(3));
    assert_eq!(poll_encode(&items, 5, true), EncodePoll::Ended(4));
    assert_eq!(poll_encode(&items, 3, false), EncodePoll::Retry);
    assert_eq!(poll_encode(&items, 3, true), EncodePoll::TimedOut);
    assert_eq!(poll_encode(&items, 9, false), EncodePoll::Disappeared);
    // A finished item is reported even after the deadline.
    assert_eq!(poll_encode(&items, 1, true), EncodePoll::Complete);
}

#[test]
fn output_selection() {
    assert!(output_matches(Some("VIDEO"), "video"));
    assert!(!output_matches(Some("video2"), "video"));
    assert!(!output_matches(None, "video"));
    assert_eq!(poll_output(1, false), LocatePoll::Found);
    assert_eq!(poll_output(1, true), LocatePoll::Found);
    assert_eq!(poll_output(0, false), LocatePoll::Retry);
    assert_eq!(poll_output(0, true), LocatePoll::Missing);
    assert_eq!(poll_output(2, false), LocatePoll::Ambiguous(2));
}

#[test]
fn health() {
    assert_eq!(health_verdict(Some(true)), Ok(()));
    assert_eq!(health_verdict(Some(false)), Err(HealthError::Unhealthy));
    assert_eq!(health_verdict(None), Err(HealthError::Unhealthy));
    assert_eq!(verify_health(b"{\"ok\": true}"), Ok(()));
    assert_eq!(verify_health(b"{\"ok\": \"true\"}"), Err(HealthError::Unhealthy));
    assert_eq!(verify_health(b"[]"), Err(HealthError::Unhealthy));
    assert_eq!(verify_health(b"{\"ok\": false}"), Err(HealthError::Unhealthy));
}
