//! The URLs of the two servers the bridge talks to.
use vstd::prelude::*;
use crate::text::push_char;

verus! {

/// Whether `reqwest::Url::parse` (the `url` crate's WHATWG URL parser) accepts a text.
pub uninterp spec fn url_accepted(text: Seq<char>) -> bool;

/// Calls `reqwest::Url::parse` and reports whether it succeeded.
#[verifier::external_body]
pub fn url_parses(text: &str) -> (ok: bool)
    ensures
        ok == url_accepted(text@),
{
    reqwest::Url::parse(text).is_ok()
}

/// The path of the URL that `reqwest::Url::parse` makes of a text it accepts.
pub uninterp spec fn url_path_of(text: Seq<char>) -> Seq<char>;

/// Calls `reqwest::Url::parse` and, when it succeeds, `Url::path` of the result.
#[verifier::external_body]
fn url_path(text: &str) -> (res: Option<String>)
    ensures
        res is Some == url_accepted(text@),
        res matches Some(p) ==> p@ == url_path_of(text@),
{
    match reqwest::Url::parse(text) {
        Ok(url) => Some(url.path().to_owned()),
        Err(_) => None,
    }
}

/// The path a base URL is given so that relative endpoints are joined below it: the path
/// itself when it ends with `/`, else the path with a `/` added.
pub open spec fn directory_path_of(path: Seq<char>) -> Seq<char> {
    if path.len() > 0 && path.last() == '/' {
        path
    } else {
        path.push('/')
    }
}

/// The path of a base URL, ending with `/` (see `directory_path_of`).
pub fn directory_path(path: &str) -> (res: String)
    ensures
        res@ == directory_path_of(path@),
{
    let n = path.unicode_len();
    let mut res = path.to_owned();
    if n == 0 || path.get_char(n - 1) != '/' {
        push_char(&mut res, '/');
    }
    res
}

/// The path of the base URL written as `value`, made to end with `/` so that relative endpoints
/// are joined below it; `None` when `value` is no URL.
pub fn base_url_path(value: &str) -> (res: Option<String>)
    ensures
        res is Some == url_accepted(value@),
        res matches Some(p) ==> p@ == directory_path_of(url_path_of(value@)),
{
    match url_path(value) {
        Some(path) => Some(directory_path(path.as_str())),
        None => None,
    }
}

} // verus!
