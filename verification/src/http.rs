//! What the bridge reads from HTTP replies: status codes, excerpts of bodies, JSON members.
use vstd::prelude::*;
use crate::text::{excerpt, excerpt_text, lossy_utf8, utf8_lossy};

verus! {

/// `reqwest::StatusCode::is_success`: the status is in `200..=299`.
pub open spec fn success_status(status: u16) -> bool {
    200 <= status <= 299
}

/// Whether an HTTP status reports success.
pub fn is_success(status: u16) -> (b: bool)
    ensures
        b == success_status(status),
{
    200 <= status && status <= 299
}

/// The excerpt of a reply body kept in an error message: the body read as UTF-8 with
/// invalid sequences replaced, then cut as `excerpt_text` says.
pub fn body_excerpt(body: &[u8]) -> (res: String)
    ensures
        res@ == excerpt_text(lossy_utf8(body@)),
{
    let text = utf8_lossy(body);
    excerpt(text.as_str())
}

/// A reply whose HTTP status is not a success.
pub struct StatusFailure {
    pub status: u16,
    /// The excerpt of the reply body (see `body_excerpt`).
    pub body: String,
}

/// Checks the status of a reply before its JSON body is read.
pub fn check_reply(status: u16, body: &[u8]) -> (res: Result<(), StatusFailure>)
    ensures
        match res {
            Ok(()) => success_status(status),
            Err(f) => !success_status(status) && f.status == status
                && f.body@ == excerpt_text(lossy_utf8(body@)),
        },
{
    if is_success(status) {
        Ok(())
    } else {
        Err(StatusFailure { status, body: body_excerpt(body) })
    }
}

/// Whether `serde_json::from_str::<serde_json::Value>` accepts a text as JSON.
pub uninterp spec fn json_text_accepted(text: Seq<char>) -> bool;

/// Calls `serde_json::from_str::<serde_json::Value>` and reports whether the text is JSON.
#[verifier::external_body]
pub fn json_text_parses(text: &str) -> (ok: bool)
    ensures
        ok == json_text_accepted(text@),
{
    serde_json::from_str::<serde_json::Value>(text).is_ok()
}

/// The member `key` of the JSON object in `text` when it is an integer that fits `i64`.
pub uninterp spec fn json_i64_member_of(text: Seq<char>, key: Seq<char>) -> Option<i64>;

/// Parses `text` with `serde_json::from_str::<serde_json::Value>` and reads
/// `value.get(key).and_then(serde_json::Value::as_i64)`; a text that is not JSON has no member.
#[verifier::external_body]
pub fn json_i64_member(text: &str, key: &str) -> (res: Option<i64>)
    ensures
        res == json_i64_member_of(text@, key@),
        !json_text_accepted(text@) ==> res is None,
{
    serde_json::from_str::<serde_json::Value>(text).ok()?.get(key)?.as_i64()
}

/// The member `key` of the JSON object in `text` when it is a string.
pub uninterp spec fn json_str_member_of(text: Seq<char>, key: Seq<char>) -> Option<Seq<char>>;

/// Parses `text` with `serde_json::from_str::<serde_json::Value>` and reads
/// `value.get(key).and_then(serde_json::Value::as_str)` as an owned string; a text that is not
/// JSON has no member.
#[verifier::external_body]
pub fn json_str_member(text: &str, key: &str) -> (res: Option<String>)
    ensures
        match res {
            Some(s) => json_str_member_of(text@, key@) == Some(s@),
            None => json_str_member_of(text@, key@) is None,
        },
        !json_text_accepted(text@) ==> res is None,
{
    Some(serde_json::from_str::<serde_json::Value>(text).ok()?.get(key)?.as_str()?.to_owned())
}

/// The member `key` of the JSON object in the bytes `body` when it is a boolean.
pub uninterp spec fn json_bool_member_of(body: Seq<u8>, key: Seq<char>) -> Option<bool>;

/// Parses `body` with `serde_json::from_slice::<serde_json::Value>` and reads
/// `value.get(key).and_then(serde_json::Value::as_bool)`.
#[verifier::external_body]
pub fn json_bool_member(body: &[u8], key: &str) -> (res: Option<bool>)
    ensures
        res == json_bool_member_of(body@, key@),
{
    serde_json::from_slice::<serde_json::Value>(body).ok()?.get(key)?.as_bool()
}

} // verus!
