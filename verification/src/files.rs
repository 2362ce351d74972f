//! File names and paths as the bridge handles them: the parts of a file name, the name of a
//! partial download, MIME types, and the comparison of paths reported by Amatsukaze.
use vstd::prelude::*;
use crate::text::{ascii_lower, ascii_lowercase, push_char, same_text};

verus! {

/// The index of the last `.` in `name`, or -1 when there is none.
pub open spec fn last_dot(name: Seq<char>) -> int
    decreases name.len(),
{
    if name.len() == 0 {
        -1
    } else if name.last() == '.' {
        name.len() - 1
    } else {
        last_dot(name.drop_last())
    }
}

/// A file name has an extension when it has a `.` after its first character (`..` has none).
pub open spec fn has_extension(name: Seq<char>) -> bool {
    name != seq!['.', '.'] && last_dot(name) > 0
}

/// The stem of a file name, as `Path::file_stem` documents it: the part before the final `.`,
/// or the whole name when it has no extension.
pub open spec fn stem_of(name: Seq<char>) -> Seq<char> {
    if has_extension(name) {
        name.take(last_dot(name))
    } else {
        name
    }
}

/// The extension of a file name, as `Path::extension` documents it: the part after the final
/// `.`, if any.
pub open spec fn extension_of(name: Seq<char>) -> Option<Seq<char>> {
    if has_extension(name) {
        Some(name.skip(last_dot(name) + 1))
    } else {
        None
    }
}

proof fn lemma_last_dot(name: Seq<char>)
    ensures
        -1 <= last_dot(name) < name.len(),
        last_dot(name) >= 0 ==> name[last_dot(name)] == '.',
        forall|j: int| last_dot(name) < j < name.len() ==> name[j] != '.',
    decreases name.len(),
{
    if name.len() > 0 && name.last() != '.' {
        lemma_last_dot(name.drop_last());
        assert forall|j: int| last_dot(name) < j < name.len() implies name[j] != '.' by {
            if j < name.len() - 1 {
                assert(name.drop_last()[j] == name[j]);
            }
        }
    }
}

proof fn lemma_last_dot_unique(name: Seq<char>, k: int)
    requires
        -1 <= k < name.len(),
        k >= 0 ==> name[k] == '.',
        forall|j: int| k < j < name.len() ==> name[j] != '.',
    ensures
        last_dot(name) == k,
    decreases name.len(),
{
    if name.len() > 0 && name.last() != '.' {
        lemma_last_dot_unique(name.drop_last(), k);
    }
}

/// Where the extension of `name` starts: the index of its final `.` when it has an extension.
fn extension_dot(name: &str) -> (res: Option<usize>)
    ensures
        match res {
            Some(k) => has_extension(name@) && k == last_dot(name@),
            None => !has_extension(name@),
        },
{
    broadcast use vstd::string::group_string_axioms;
    let n = name.unicode_len();
    let mut last: Option<usize> = None;
    let mut i: usize = 0;
    for c in it: name.chars()
        invariant
            it.seq() == name@,
            n == name@.len(),
            i == it.index(),
            match last {
                Some(k) => k < i && name@[k as int] == '.' && forall|j: int| k < j < i ==> name@[j] != '.',
                None => forall|j: int| 0 <= j < i ==> name@[j] != '.',
            },
    {
        if c == '.' {
            last = Some(i);
        }
        i = i + 1;
    }
    proof {
        match last {
            Some(k) => lemma_last_dot_unique(name@, k as int),
            None => lemma_last_dot_unique(name@, -1),
        }
    }
    match last {
        Some(k) => {
            if k == 0 || (n == 2 && k == 1 && name.get_char(0) == '.') {
                proof {
                    if k == 1 && n == 2 {
                        assert(name@ =~= seq!['.', '.']);
                    }
                }
                None
            } else {
                proof {
                    if name@ == seq!['.', '.'] {
                        assert(name@[0] == '.');
                    }
                }
                Some(k)
            }
        },
        None => None,
    }
}

/// The stem of a file name (see `stem_of`).
pub fn file_stem(name: &str) -> (res: String)
    ensures
        res@ == stem_of(name@),
{
    match extension_dot(name) {
        Some(k) => {
            proof { lemma_last_dot(name@); }
            let stem = name.substring_char(0, k).to_owned();
            assert(name@.subrange(0, k as int) =~= name@.take(k as int));
            stem
        },
        None => name.to_owned(),
    }
}

/// The extension of a file name in ASCII lower case, if it has one.
pub open spec fn lowercase_extension(name: Seq<char>) -> Option<Seq<char>> {
    match extension_of(name) {
        Some(e) => Some(e.map_values(|c: char| ascii_lower(c))),
        None => None,
    }
}

/// The extension of the file named `file_name`, in ASCII lower case.
pub fn extension(file_name: &str) -> (res: Option<String>)
    ensures
        match res {
            Some(e) => lowercase_extension(file_name@) == Some(e@),
            None => lowercase_extension(file_name@) is None,
        },
{
    match extension_dot(file_name) {
        Some(k) => {
            proof { lemma_last_dot(file_name@); }
            let n = file_name.unicode_len();
            let ext = file_name.substring_char(k + 1, n);
            assert(file_name@.subrange(k + 1, n as int) =~= file_name@.skip(k + 1));
            Some(ascii_lowercase(ext))
        },
        None => None,
    }
}

/// The MIME type an upload of a file with this lower-case extension is sent with.
pub open spec fn mime_for(extension: Option<Seq<char>>) -> Seq<char> {
    if extension == Some("mkv"@) {
        "video/x-matroska"@
    } else if extension == Some("mp4"@) {
        "video/mp4"@
    } else {
        "application/octet-stream"@
    }
}

/// The MIME type of the encoded file named `file_name`.
pub fn output_mime(file_name: &str) -> (res: &'static str)
    ensures
        res@ == mime_for(lowercase_extension(file_name@)),
{
    match extension(file_name) {
        Some(e) => {
            if same_text(e.as_str(), "mkv") {
                "video/x-matroska"
            } else if same_text(e.as_str(), "mp4") {
                "video/mp4"
            } else {
                "application/octet-stream"
            }
        },
        None => "application/octet-stream",
    }
}

/// The name under which a download into `file_name` is written until it is complete.
pub fn partial_path(file_name: &str) -> (res: String)
    ensures
        res@ == file_name@ + ".part"@,
{
    let mut res = file_name.to_owned();
    res.append(".part");
    res
}

/// Why text could not be had from a path.
#[derive(Debug, PartialEq, Eq, Structural)]
pub enum PathError {
    /// `path is not UTF-8`
    NotUtf8,
}

/// Calls `std::str::from_utf8`, which accepts exactly the byte strings that are valid UTF-8
/// and then views them as the characters they encode.
#[verifier::external_body]
fn str_from_utf8(bytes: &[u8]) -> (res: Option<&str>)
    ensures
        res is Some <==> vstd::utf8::valid_utf8(bytes@),
        res matches Some(s) ==> s@ == vstd::utf8::decode_utf8(bytes@),
{
    std::str::from_utf8(bytes).ok()
}

/// The text of a path given by its encoded bytes (`OsStr::as_encoded_bytes`), when they are UTF-8.
pub fn as_utf8(path: &[u8]) -> (res: Result<&str, PathError>)
    ensures
        match res {
            Ok(s) => vstd::utf8::valid_utf8(path@) && s@ == vstd::utf8::decode_utf8(path@),
            Err(e) => !vstd::utf8::valid_utf8(path@) && e == PathError::NotUtf8,
        },
{
    match str_from_utf8(path) {
        Some(s) => Ok(s),
        None => Err(PathError::NotUtf8),
    }
}

/// What `str::to_lowercase` makes of a text (full Unicode lower-case mapping).
pub uninterp spec fn unicode_lowercase(s: Seq<char>) -> Seq<char>;

/// Calls `str::to_lowercase`.
#[verifier::external_body]
fn to_lowercase(s: &str) -> (res: String)
    ensures
        res@ == unicode_lowercase(s@),
{
    s.to_lowercase()
}

/// A Windows path with `/` written as `\`.
pub open spec fn backslashed(s: Seq<char>) -> Seq<char> {
    s.map_values(|c: char| if c == '/' { '\\' } else { c })
}

/// The form in which two Windows paths are compared: separators unified, lower case.
pub open spec fn windows_path_key(s: Seq<char>) -> Seq<char> {
    unicode_lowercase(backslashed(s))
}

/// `value` with `/` replaced by `\`, then in lower case.
pub fn normalize_windows_path(value: &str) -> (res: String)
    ensures
        res@ == windows_path_key(value@),
{
    broadcast use vstd::string::group_string_axioms;
    let mut replaced = String::new();
    for c in it: value.chars()
        invariant
            it.seq() == value@,
            replaced@ == backslashed(value@.take(it.index() as int)),
    {
        push_char(&mut replaced, if c == '/' { '\\' } else { c });
        assert(value@.take(it.index() + 1) =~= value@.take(it.index() as int).push(c));
        assert(replaced@ =~= backslashed(value@.take(it.index() + 1)));
    }
    assert(value@.take(value@.len() as int) =~= value@);
    to_lowercase(replaced.as_str())
}

/// Whether a part of a Unix path between separators is one of its components: empty parts
/// and `.` are dropped, except a `.` that starts a relative path.
pub open spec fn keeps_part(k: nat, part: Seq<char>) -> bool {
    part.len() > 0 && (part != seq!['.'] || k == 0)
}

/// Reading a Unix path left to right: the components so far, the part being read, and how
/// many separators came before it.
pub open spec fn unix_scan(s: Seq<char>) -> (Seq<Seq<char>>, Seq<char>, nat)
    decreases s.len(),
{
    if s.len() == 0 {
        (seq![], seq![], 0)
    } else {
        let (done, cur, k) = unix_scan(s.drop_last());
        if s.last() == '/' {
            (if keeps_part(k, cur) { done.push(cur) } else { done }, seq![], k + 1)
        } else {
            (done, cur.push(s.last()), k)
        }
    }
}

/// The components of a Unix path, as `Path::components` documents them: repeated separators
/// and `.` are normalized away, except a leading `.`; a trailing separator is dropped.
pub open spec fn unix_components(s: Seq<char>) -> Seq<Seq<char>> {
    let (done, cur, k) = unix_scan(s);
    if keeps_part(k, cur) {
        done.push(cur)
    } else {
        done
    }
}

/// Whether a Unix path starts at the root.
pub open spec fn unix_rooted(s: Seq<char>) -> bool {
    s.len() > 0 && s[0] == '/'
}

/// Whether two Unix paths are equal as paths: same root and same components.
pub open spec fn same_unix_path(a: Seq<char>, b: Seq<char>) -> bool {
    unix_rooted(a) == unix_rooted(b) && unix_components(a) == unix_components(b)
}

/// The components of a Unix path (see `unix_components`).
fn unix_path_components(path: &str) -> (res: Vec<String>)
    ensures
        res@.map_values(|c: String| c@) == unix_components(path@),
{
    broadcast use vstd::string::group_string_axioms;
    let n = path.unicode_len();
    let mut done: Vec<String> = Vec::new();
    let mut cur = String::new();
    let mut k: usize = 0;
    for c in it: path.chars()
        invariant
            it.seq() == path@,
            n == path@.len(),
            k <= it.index(),
            (done@.map_values(|c: String| c@), cur@, k as nat) == unix_scan(path@.take(it.index() as int)),
    {
        let ghost i = it.index() as int;
        assert(path@.take(i + 1).drop_last() =~= path@.take(i));
        assert(path@.take(i + 1).last() == c);
        if c == '/' {
            let keep = cur.unicode_len() > 0 && !(k != 0 && same_text(cur.as_str(), "."));
            proof {
                reveal_strlit(".");
                assert(keep == keeps_part(k as nat, cur@)) by {
                    if cur@.len() == 1 && cur@[0] == '.' {
                        assert(cur@ =~= seq!['.']);
                    }
                    assert(seq!['.'] =~= "."@);
                }
            }
            let mut finished = String::new();
            std::mem::swap(&mut finished, &mut cur);
            if keep {
                let ghost before = done@.map_values(|c: String| c@);
                done.push(finished);
                assert(done@.map_values(|c: String| c@) =~= before.push(finished@));
            }
            k = k + 1;
        } else {
            push_char(&mut cur, c);
        }
    }
    assert(path@.take(n as int) =~= path@);
    let keep = cur.unicode_len() > 0 && !(k != 0 && same_text(cur.as_str(), "."));
    proof {
        reveal_strlit(".");
        assert(keep == keeps_part(k as nat, cur@)) by {
            if cur@.len() == 1 && cur@[0] == '.' {
                assert(cur@ =~= seq!['.']);
            }
            assert(seq!['.'] =~= "."@);
        }
    }
    if keep {
        let ghost before = done@.map_values(|c: String| c@);
        done.push(cur);
        assert(done@.map_values(|c: String| c@) =~= before.push(unix_scan(path@).1));
    }
    done
}

/// Whether two lists of texts are equal.
fn same_texts(a: &Vec<String>, b: &Vec<String>) -> (res: bool)
    ensures
        res == (a@.map_values(|c: String| c@) == b@.map_values(|c: String| c@)),
{
    let ghost va = a@.map_values(|c: String| c@);
    let ghost vb = b@.map_values(|c: String| c@);
    if a.len() != b.len() {
        assert(va.len() != vb.len());
        return false;
    }
    let mut i: usize = 0;
    while i < a.len()
        invariant
            va == a@.map_values(|c: String| c@),
            vb == b@.map_values(|c: String| c@),
            a.len() == b.len(),
            i <= a.len(),
            forall|j: int| 0 <= j < i ==> va[j] == vb[j],
        decreases a.len() - i,
    {
        if a[i] != b[i] {
            assert(va[i as int] != vb[i as int]);
            return false;
        }
        i = i + 1;
    }
    assert(va =~= vb);
    true
}

/// Whether two texts are the same path under Unix conventions (see `same_unix_path`).
pub fn same_unix_path_text(a: &str, b: &str) -> (res: bool)
    ensures
        res == same_unix_path(a@, b@),
{
    let rooted_a = a.unicode_len() > 0 && a.get_char(0) == '/';
    let rooted_b = b.unicode_len() > 0 && b.get_char(0) == '/';
    if rooted_a != rooted_b {
        return false;
    }
    let ca = unix_path_components(a);
    let cb = unix_path_components(b);
    same_texts(&ca, &cb)
}

/// Whether two paths are the same, under Windows conventions (see `windows_path_key`) or
/// under Unix conventions (see `same_unix_path`).
pub open spec fn same_path_as(value: Seq<char>, path: Seq<char>, windows: bool) -> bool {
    if windows {
        windows_path_key(value) == windows_path_key(path)
    } else {
        same_unix_path(value, path)
    }
}

/// Whether the path `value` reported by Amatsukaze names the file at `path`, under the path
/// conventions of Windows or of Unix.
pub fn same_path(value: &str, path: &str, windows: bool) -> (res: bool)
    ensures
        res == same_path_as(value@, path@, windows),
{
    if windows {
        let a = normalize_windows_path(value);
        let b = normalize_windows_path(path);
        a == b
    } else {
        same_unix_path_text(value, path)
    }
}

/// A path is the same as itself under either convention, so the queue item whose source is
/// exactly the submitted input path is recognised.
pub proof fn law_same_path_reflexive(path: Seq<char>, windows: bool)
    ensures
        same_path_as(path, path, windows),
{
}

} // verus!
