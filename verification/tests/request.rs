use encode_bridge::request::{is_plain_filename, BridgeRequest, RequestError, RequestKey};

fn request(recorded_id: u64, input: &str, preset: &str, view: &str) -> BridgeRequest {
    BridgeRequest {
        recorded_id,
        input_filename: input.to_string(),
        preset: preset.to_string(),
        sub_directory: "anime".to_string(),
        view_name: view.to_string(),
    }
}

#[test]
fn valid_request_is_accepted() {
    assert_eq!(request(5, "video.m2ts", "NVEnc_HEVC", "HEVC").validate(), Ok(()));
}

#[test]
fn zero_recorded_id_is_refused() {
    assert_eq!(
        request(0, "video.m2ts", "NVEnc_HEVC", "HEVC").validate(),
        Err(RequestError::RecordedIdNotPositive)
    );
}

#[test]
fn blank_preset_is_refused() {
    assert_eq!(request(1, "v.ts", " \t\n", "HEVC").validate(), Err(RequestError::PresetEmpty));
    assert_eq!(request(1, "v.ts", "\u{3000}", "HEVC").validate(), Err(RequestError::PresetEmpty));
    assert_eq!(request(1, "v.ts", "", "HEVC").validate(), Err(RequestError::PresetEmpty));
}

#[test]
fn blank_view_name_is_refused() {
    assert_eq!(request(1, "v.ts", "p", "\u{a0} ").validate(), Err(RequestError::ViewNameEmpty));
}

#[test]
fn checks_are_reported_in_order() {
    // Every field is wrong: the recorded id is reported first.
    assert_eq!(request(0, "a/b", "", "").validate(), Err(RequestError::RecordedIdNotPositive));
    assert_eq!(request(1, "a/b", "", "").validate(), Err(RequestError::PresetEmpty));
    assert_eq!(request(1, "a/b", "p", "").validate(), Err(RequestError::ViewNameEmpty));
    assert_eq!(request(1, "a/b", "p", "v").validate(), Err(RequestError::InputFilenameNotPlain));
}

#[test]
fn plain_filenames() {
    assert!(is_plain_filename("video.m2ts"));
    assert!(is_plain_filename("..."));
    assert!(is_plain_filename(".hidden"));
    assert!(is_plain_filename("番組.ts"));
    assert!(!is_plain_filename(""));
    assert!(!is_plain_filename("."));
    assert!(!is_plain_filename(".."));
    assert!(!is_plain_filename("dir/video.ts"));
    assert!(!is_plain_filename("dir\\video.ts"));
    assert!(!is_plain_filename("video\0.ts"));
}

#[test]
fn unsafe_filename_is_refused() {
    assert_eq!(
        request(1, "../etc", "p", "v").validate(),
        Err(RequestError::InputFilenameNotPlain)
    );
}

#[test]
fn request_keys_compare_all_fields() {
    let a = request(1, "v.ts", "p", "v");
    let mut b = request(1, "v.ts", "p", "v");
    assert!(RequestKey::from(&a).same_as(&RequestKey::from(&b)));
    b.sub_directory = "other".to_string();
    assert!(!RequestKey::from(&a).same_as(&RequestKey::from(&b)));
    let key = RequestKey::from(&a);
    assert!(key.duplicate().same_as(&key));
    assert_eq!(key.recorded_id, 1);
    assert_eq!(key.preset, "p");
}
