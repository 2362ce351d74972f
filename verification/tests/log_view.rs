use encode_bridge::log_view::{icon_rgba, trim_log, MAX_LOG_BYTES};

#[test]
fn short_logs_are_kept() {
    let mut s = "line\n".to_string();
    trim_log(&mut s);
    assert_eq!(s, "line\n");
    let mut exact = "x".repeat(MAX_LOG_BYTES);
    trim_log(&mut exact);
    assert_eq!(exact.len(), MAX_LOG_BYTES);
}

#[test]
fn long_logs_keep_their_end() {
    let mut s = "a".repeat(10) + &"x".repeat(MAX_LOG_BYTES);
    trim_log(&mut s);
    assert_eq!(s, "x".repeat(MAX_LOG_BYTES));
}

#[test]
fn cuts_fall_on_character_boundaries() {
    // 'あ' takes three bytes; one byte too many must drop a whole character.
    let mut s = "あ".to_string() + &"x".repeat(MAX_LOG_BYTES - 2);
    trim_log(&mut s);
    assert_eq!(s, "x".repeat(MAX_LOG_BYTES - 2));
    let mut m = "ab".to_string() + &"あ".repeat(MAX_LOG_BYTES / 3 + 1);
    let before = m.clone();
    trim_log(&mut m);
    assert!(m.len() <= MAX_LOG_BYTES);
    assert!(before.ends_with(&m));
}

#[test]
fn icon_pixels() {
    let icon = icon_rgba();
    assert_eq!(icon.len(), 32 * 32 * 4);
    let pixel = |x: usize, y: usize| icon[(y * 32 + x) * 4..(y * 32 + x) * 4 + 4].to_vec();
    assert_eq!(pixel(0, 0), vec![0, 0, 0, 0]);
    assert_eq!(pixel(15, 15), vec![42, 112, 219, 255]);
    assert_eq!(pixel(8, 9), vec![255, 255, 255, 255]);
    assert_eq!(pixel(23, 22), vec![255, 255, 255, 255]);
    assert_eq!(pixel(15, 1), vec![42, 112, 219, 255]);
    assert_eq!(pixel(15, 0), vec![0, 0, 0, 0]);
}
