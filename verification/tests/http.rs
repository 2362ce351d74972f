use encode_bridge::http::{body_excerpt, check_reply, is_success, json_bool_member, json_i64_member, json_str_member, json_text_parses};
use encode_bridge::text::{ascii_lowercase, eq_ignore_ascii_case, excerpt, is_blank, utf8_lossy};

#[test]
fn success_statuses() {
    assert!(is_success(200));
    assert!(is_success(299));
    assert!(!is_success(199));
    assert!(!is_success(300));
    assert!(!is_success(404));
}

#[test]
fn short_bodies_are_kept_whole() {
    assert_eq!(body_excerpt(b"{\"error\":\"x\"}"), "{\"error\":\"x\"}");
    assert_eq!(body_excerpt(&[0x61, 0xff, 0x62]), "a\u{fffd}b");
}

#[test]
fn long_bodies_are_truncated() {
    let body = "é".repeat(2_500);
    let e = body_excerpt(body.as_bytes());
    assert_eq!(e, format!("{}... (truncated)", "é".repeat(2_000)));
    let exact = "x".repeat(2_000);
    assert_eq!(excerpt(&exact), exact);
    let over = "x".repeat(2_001);
    assert_eq!(excerpt(&over), format!("{}... (truncated)", "x".repeat(2_000)));
}

#[test]
fn failing_status_carries_an_excerpt() {
    assert!(check_reply(204, b"").is_ok());
    let f = check_reply(500, b"internal").unwrap_err();
    assert_eq!(f.status, 500);
    assert_eq!(f.body, "internal");
}

#[test]
fn json_members() {
    let text = "{\"ok\":true,\"code\":200,\"result\":\"ok\"}";
    assert!(json_text_parses(text));
    assert_eq!(json_bool_member(text.as_bytes(), "ok"), Some(true));
    assert_eq!(json_i64_member(text, "code"), Some(200));
    assert_eq!(json_str_member(text, "result").as_deref(), Some("ok"));
    assert_eq!(json_bool_member(text.as_bytes(), "code"), None);
    assert_eq!(json_i64_member(text, "missing"), None);
    assert!(!json_text_parses("not json"));
    assert_eq!(json_i64_member("not json", "code"), None);
    assert_eq!(json_bool_member(&[0xff], "ok"), None);
}

#[test]
fn text_helpers() {
    assert_eq!(ascii_lowercase("AbC-Ä"), "abc-Ä");
    assert!(eq_ignore_ascii_case("VIDEO", "video"));
    assert!(!eq_ignore_ascii_case("Ä", "ä"));
    assert!(is_blank(" \u{2003}\r\n"));
    assert!(!is_blank(" a "));
    assert_eq!(utf8_lossy(&[0xe3, 0x81, 0x82]), "あ");
}
