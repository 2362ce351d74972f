use encode_bridge::files::{
    as_utf8, extension, file_stem, normalize_windows_path, output_mime, partial_path, same_path,
    same_unix_path_text, PathError,
};

#[test]
fn extensions_follow_the_final_dot() {
    assert_eq!(extension("Video.MKV").as_deref(), Some("mkv"));
    assert_eq!(extension("a.b.Mp4").as_deref(), Some("mp4"));
    assert_eq!(extension("a.").as_deref(), Some(""));
    assert_eq!(extension("noext"), None);
    assert_eq!(extension(".bashrc"), None);
    assert_eq!(extension(".config.toml").as_deref(), Some("toml"));
    assert_eq!(extension(".."), None);
    assert_eq!(extension("番組.TS").as_deref(), Some("ts"));
}

#[test]
fn stems_stop_before_the_final_dot() {
    assert_eq!(file_stem("video.m2ts"), "video");
    assert_eq!(file_stem("a.b.c"), "a.b");
    assert_eq!(file_stem(".bashrc"), ".bashrc");
    assert_eq!(file_stem("plain"), "plain");
    assert_eq!(file_stem("x."), "x");
}

#[test]
fn mime_types() {
    assert_eq!(output_mime("out.mkv"), "video/x-matroska");
    assert_eq!(output_mime("out.MKV"), "video/x-matroska");
    assert_eq!(output_mime("out.mp4"), "video/mp4");
    assert_eq!(output_mime("out.ts"), "application/octet-stream");
    assert_eq!(output_mime("out"), "application/octet-stream");
}

#[test]
fn partial_download_name() {
    assert_eq!(partial_path("video.m2ts"), "video.m2ts.part");
}

#[test]
fn windows_paths_normalize() {
    assert_eq!(normalize_windows_path("C:/Work/ÄB/In.TS"), "c:\\work\\äb\\in.ts");
    assert!(same_path("C:/work/x/input/v.ts", "c:\\WORK\\x\\input\\V.TS", true));
    assert!(!same_path("C:/work/x/input/v.ts", "C:/work/x/input/w.ts", true));
}

#[test]
fn unix_paths_compare_by_components() {
    assert!(same_unix_path_text("/a//b/", "/a/b"));
    assert!(same_unix_path_text("a/./b", "a/b"));
    assert!(same_unix_path_text("./a", "./a/"));
    assert!(!same_unix_path_text("./a", "a"));
    assert!(!same_unix_path_text("/a", "a"));
    assert!(!same_unix_path_text("a/../b", "b"));
    assert!(same_unix_path_text("/.", "/"));
    assert!(!same_path("/A/b", "/a/b", false));
    assert!(same_path("/work//x/input/v.ts", "/work/x/input/v.ts", false));
}

#[test]
fn utf8_paths() {
    assert_eq!(as_utf8("/work/録画.ts".as_bytes()), Ok("/work/録画.ts"));
    assert_eq!(as_utf8(&[0x2f, 0xff, 0x61]), Err(PathError::NotUtf8));
}
