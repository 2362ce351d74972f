//! The decisions the bridge takes around EPGStation: which video file of a recording is the
//! input, whether a download is complete, what an upload sends, and whether EPGStation
//! accepted it.
use vstd::prelude::*;
use crate::amatsukaze::{decimal_text, u64_text};
use crate::http::{
    is_success, json_i64_member, json_i64_member_of, json_str_member, json_str_member_of,
    json_text_accepted, json_text_parses, success_status,
};
use crate::text::{excerpt, excerpt_text, same_text};

verus! {

/// One video file of a recording, as EPGStation lists it.
pub struct VideoFile {
    pub id: u64,
    pub filename: String,
    pub size: u64,
}

/// The video file chosen as the workflow's input.
#[derive(Clone, Copy, Debug, PartialEq, Eq, Structural)]
pub struct InputVideo {
    pub id: u64,
    pub size: u64,
}

/// Why no input could be chosen.
#[derive(Clone, Copy, Debug, PartialEq, Eq, Structural)]
pub enum ResolveError {
    /// `expected one input video named <name>, found <count>`
    NotExactlyOne(usize),
    /// `input video is empty`
    Empty,
}

/// How many of `files` are named `name`.
pub open spec fn count_named(files: Seq<VideoFile>, name: Seq<char>) -> nat
    decreases files.len(),
{
    if files.len() == 0 {
        0
    } else {
        count_named(files.drop_last(), name) + if files.last().filename@ == name { 1nat } else { 0nat }
    }
}

proof fn lemma_count_one(files: Seq<VideoFile>, name: Seq<char>, i: int)
    requires
        0 <= i < files.len(),
        files[i].filename@ == name,
        forall|j: int| 0 <= j < files.len() && j != i ==> (#[trigger] files[j]).filename@ != name,
    ensures
        count_named(files, name) == 1,
    decreases files.len(),
{
    if i < files.len() - 1 {
        lemma_count_one(files.drop_last(), name, i);
    } else {
        lemma_count_none(files.drop_last(), name);
    }
}

proof fn lemma_count_none(files: Seq<VideoFile>, name: Seq<char>)
    requires
        forall|j: int| 0 <= j < files.len() ==> (#[trigger] files[j]).filename@ != name,
    ensures
        count_named(files, name) == 0,
    decreases files.len(),
{
    if files.len() > 0 {
        lemma_count_none(files.drop_last(), name);
    }
}

/// Chooses the input among the video files of a recording: exactly one of them must be named
/// `input_filename`, and it must not be empty.
pub fn resolve_input(files: &Vec<VideoFile>, input_filename: &str) -> (res: Result<InputVideo, ResolveError>)
    ensures
        match res {
            Ok(v) => count_named(files@, input_filename@) == 1 && exists|i: int|
                0 <= i < files.len() && (#[trigger] files@[i]).filename@ == input_filename@
                    && v.id == files@[i].id && v.size == files@[i].size && v.size > 0,
            Err(ResolveError::NotExactlyOne(n)) => count_named(files@, input_filename@) != 1
                && n == count_named(files@, input_filename@),
            Err(ResolveError::Empty) => count_named(files@, input_filename@) == 1 && exists|i: int|
                0 <= i < files.len() && (#[trigger] files@[i]).filename@ == input_filename@ && files@[i].size == 0,
        },
{
    let mut count: usize = 0;
    let mut found: Option<usize> = None;
    let mut i: usize = 0;
    while i < files.len()
        invariant
            i <= files.len(),
            count == count_named(files@.take(i as int), input_filename@),
            count <= i,
            match found {
                Some(k) => k < i && files@[k as int].filename@ == input_filename@,
                None => count == 0,
            },
        decreases files.len() - i,
    {
        assert(files@.take(i + 1).drop_last() =~= files@.take(i as int));
        if same_text(files[i].filename.as_str(), input_filename) {
            count = count + 1;
            if found.is_none() {
                found = Some(i);
            }
        }
        i = i + 1;
    }
    assert(files@.take(i as int) =~= files@);
    if count != 1 {
        return Err(ResolveError::NotExactlyOne(count));
    }
    let k = found.unwrap();
    let video = &files[k];
    if video.size == 0 {
        return Err(ResolveError::Empty);
    }
    Ok(InputVideo { id: video.id, size: video.size })
}

/// A download whose size differs from the file's size in EPGStation.
#[derive(Clone, Copy, Debug, PartialEq, Eq, Structural)]
pub struct SizeMismatch {
    pub expected: u64,
    pub received: u64,
}

/// Checks that a finished download received exactly the size of the video file.
pub fn check_download_size(video: InputVideo, received: u64) -> (res: Result<(), SizeMismatch>)
    ensures
        res == if received == video.size {
            Ok::<(), SizeMismatch>(())
        } else {
            Err(SizeMismatch { expected: video.size, received })
        },
{
    if received == video.size {
        Ok(())
    } else {
        Err(SizeMismatch { expected: video.size, received })
    }
}

/// The text fields of an upload to `api/videos/upload`; the file itself is the `file` part.
pub struct UploadFields {
    pub recorded_id: String,
    pub parent_directory_name: String,
    pub sub_directory: String,
    pub view_name: String,
    pub file_type: String,
}

/// The plain-value form of the upload fields.
pub struct UploadFieldsView {
    pub recorded_id: Seq<char>,
    pub parent_directory_name: Seq<char>,
    pub sub_directory: Seq<char>,
    pub view_name: Seq<char>,
    pub file_type: Seq<char>,
}

impl View for UploadFields {
    type V = UploadFieldsView;

    open spec fn view(&self) -> UploadFieldsView {
        UploadFieldsView {
            recorded_id: self.recorded_id@,
            parent_directory_name: self.parent_directory_name@,
            sub_directory: self.sub_directory@,
            view_name: self.view_name@,
            file_type: self.file_type@,
        }
    }
}

/// The text fields of the upload of an encoded file of recording `recorded_id`.
pub open spec fn upload_fields_spec(
    recorded_id: u64,
    parent_directory_name: Seq<char>,
    sub_directory: Seq<char>,
    view_name: Seq<char>,
) -> UploadFieldsView {
    UploadFieldsView {
        recorded_id: decimal_text(recorded_id as nat),
        parent_directory_name,
        sub_directory,
        view_name,
        file_type: "encoded"@,
    }
}

/// The text fields uploaded with an encoded file.
pub fn upload_fields(recorded_id: u64, parent_directory_name: &str, sub_directory: &str, view_name: &str) -> (f: UploadFields)
    ensures
        f@ == upload_fields_spec(recorded_id, parent_directory_name@, sub_directory@, view_name@),
{
    UploadFields {
        recorded_id: u64_text(recorded_id),
        parent_directory_name: parent_directory_name.to_owned(),
        sub_directory: sub_directory.to_owned(),
        view_name: view_name.to_owned(),
        file_type: "encoded".to_owned(),
    }
}

/// The excerpt of an upload reply kept in an error message (see `excerpt_text`).
pub fn response_excerpt(response: &str) -> (res: String)
    ensures
        res@ == excerpt_text(response@),
{
    excerpt(response)
}

/// Why an upload was not accepted.
pub enum UploadError {
    /// `EPGStation upload returned HTTP <status> for <file>; response body: <excerpt>`
    Status { status: u16, body: String },
    /// `EPGStation upload response was not JSON`
    NotJson,
    /// `EPGStation rejected upload: <reply>`
    Rejected,
}

/// Whether the members of an upload reply say that it was accepted: `code` is 200 and
/// `result` is `ok`.
pub open spec fn upload_accepted(code: Option<i64>, result: Option<Seq<char>>) -> bool {
    code == Some(200i64) && result == Some("ok"@)
}

/// The verdict on the `code` and `result` members of an upload reply.
pub fn upload_verdict(code: Option<i64>, result: Option<String>) -> (b: bool)
    ensures
        b == upload_accepted(code, match result { Some(r) => Some(r@), None => None }),
{
    match (code, result) {
        (Some(200), Some(r)) => same_text(r.as_str(), "ok"),
        _ => false,
    }
}

/// Checks EPGStation's reply to an upload: its status must be a success and its body JSON
/// whose members `code` and `result` are 200 and `ok`.
pub fn check_upload_reply(status: u16, text: &str) -> (res: Result<(), UploadError>)
    ensures
        match res {
            Err(UploadError::Status { status: s, body }) => !success_status(status) && s == status
                && body@ == excerpt_text(text@),
            Err(UploadError::NotJson) => success_status(status) && !json_text_accepted(text@),
            Err(UploadError::Rejected) => success_status(status) && json_text_accepted(text@)
                && !upload_accepted(json_i64_member_of(text@, "code"@), json_str_member_of(text@, "result"@)),
            Ok(()) => success_status(status) && json_text_accepted(text@)
                && upload_accepted(json_i64_member_of(text@, "code"@), json_str_member_of(text@, "result"@)),
        },
{
    if !is_success(status) {
        return Err(UploadError::Status { status, body: response_excerpt(text) });
    }
    if !json_text_parses(text) {
        return Err(UploadError::NotJson);
    }
    let code = json_i64_member(text, "code");
    let result = json_str_member(text, "result");
    if upload_verdict(code, result) {
        Ok(())
    } else {
        Err(UploadError::Rejected)
    }
}

} // verus!
