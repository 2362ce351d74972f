use encode_bridge::epgstation::{
    check_download_size, check_upload_reply, resolve_input, response_excerpt, upload_fields,
    upload_verdict, InputVideo, ResolveError, SizeMismatch, UploadError, VideoFile,
};

fn file(id: u64, name: &str, size: u64) -> VideoFile {
    VideoFile { id, filename: name.to_string(), size }
}

#[test]
fn the_single_named_file_is_the_input() {
    let files = vec![file(1, "a.ts", 10), file(2, "b.ts", 20)];
    assert_eq!(resolve_input(&files, "b.ts"), Ok(InputVideo { id: 2, size: 20 }));
}

#[test]
fn missing_or_repeated_input() {
    let files = vec![file(1, "a.ts", 10), file(2, "a.ts", 20)];
    assert_eq!(resolve_input(&files, "a.ts"), Err(ResolveError::NotExactlyOne(2)));
    assert_eq!(resolve_input(&files, "c.ts"), Err(ResolveError::NotExactlyOne(0)));
    assert_eq!(resolve_input(&vec![], "c.ts"), Err(ResolveError::NotExactlyOne(0)));
}

#[test]
fn empty_input() {
    assert_eq!(resolve_input(&vec![file(1, "a.ts", 0)], "a.ts"), Err(ResolveError::Empty));
}

#[test]
fn download_size() {
    let v = InputVideo { id: 1, size: 100 };
    assert_eq!(check_download_size(v, 100), Ok(()));
    assert_eq!(check_download_size(v, 99), Err(SizeMismatch { expected: 100, received: 99 }));
}

#[test]
fn upload_form_fields() {
    let f = upload_fields(42, "recorded", "anime", "HEVC");
    assert_eq!(f.recorded_id, "42");
    assert_eq!(f.parent_directory_name, "recorded");
    assert_eq!(f.sub_directory, "anime");
    assert_eq!(f.view_name, "HEVC");
    assert_eq!(f.file_type, "encoded");
}

#[test]
fn upload_replies() {
    assert!(check_upload_reply(200, "{\"code\":200,\"result\":\"ok\"}").is_ok());
    assert!(matches!(check_upload_reply(200, "{\"code\":500,\"result\":\"ok\"}"), Err(UploadError::Rejected)));
    assert!(matches!(check_upload_reply(200, "{\"code\":200}"), Err(UploadError::Rejected)));
    assert!(matches!(check_upload_reply(200, "<html>"), Err(UploadError::NotJson)));
    match check_upload_reply(413, "too large") {
        Err(UploadError::Status { status, body }) => {
            assert_eq!(status, 413);
            assert_eq!(body, "too large");
        }
        _ => panic!("expected a status error"),
    }
    assert!(upload_verdict(Some(200), Some("ok".to_string())));
    assert!(!upload_verdict(Some(200), Some("OK".to_string())));
    assert!(!upload_verdict(None, Some("ok".to_string())));
}

#[test]
fn reply_excerpts() {
    assert_eq!(response_excerpt("short"), "short");
    let long = "あ".repeat(2_001);
    assert_eq!(response_excerpt(&long), format!("{}... (truncated)", "あ".repeat(2_000)));
}
