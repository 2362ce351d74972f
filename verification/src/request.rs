//! The request that starts one download–encode–upload workflow, and its validation.
use vstd::prelude::*;
use crate::text::{is_blank, is_blank_text};

verus! {

/// A request to download, encode, and upload one EPGStation recording.
pub struct BridgeRequest {
    pub recorded_id: u64,
    pub input_filename: String,
    pub preset: String,
    pub sub_directory: String,
    pub view_name: String,
}

/// Why a request was refused.
#[derive(Debug, PartialEq, Eq, Structural)]
pub enum RequestError {
    /// `recordedId must be greater than 0`
    RecordedIdNotPositive,
    /// `preset must not be empty`
    PresetEmpty,
    /// `viewName must not be empty`
    ViewNameEmpty,
    /// `inputFilename must be a plain filename`
    InputFilenameNotPlain,
}

/// A name that stays inside the directory it is joined to: not empty, not `.` or `..`,
/// and free of path separators and NUL.
pub open spec fn plain_filename(s: Seq<char>) -> bool {
    &&& s.len() > 0
    &&& s != seq!['.']
    &&& s != seq!['.', '.']
    &&& !s.contains('/')
    &&& !s.contains('\\')
    &&& !s.contains('\0')
}

/// What `validate` answers for a request with these fields.
pub open spec fn request_verdict(
    recorded_id: u64,
    input_filename: Seq<char>,
    preset: Seq<char>,
    view_name: Seq<char>,
) -> Result<(), RequestError> {
    if recorded_id == 0 {
        Err(RequestError::RecordedIdNotPositive)
    } else if is_blank_text(preset) {
        Err(RequestError::PresetEmpty)
    } else if is_blank_text(view_name) {
        Err(RequestError::ViewNameEmpty)
    } else if !plain_filename(input_filename) {
        Err(RequestError::InputFilenameNotPlain)
    } else {
        Ok(())
    }
}

impl BridgeRequest {
    pub open spec fn verdict(&self) -> Result<(), RequestError> {
        request_verdict(self.recorded_id, self.input_filename@, self.preset@, self.view_name@)
    }

    /// Checks the request before a workflow is created for it; the first failing check is reported.
    pub fn validate(&self) -> (res: Result<(), RequestError>)
        ensures
            res == self.verdict(),
    {
        if self.recorded_id == 0 {
            return Err(RequestError::RecordedIdNotPositive);
        }
        if is_blank(self.preset.as_str()) {
            return Err(RequestError::PresetEmpty);
        }
        if is_blank(self.view_name.as_str()) {
            return Err(RequestError::ViewNameEmpty);
        }
        if !is_plain_filename(self.input_filename.as_str()) {
            return Err(RequestError::InputFilenameNotPlain);
        }
        Ok(())
    }
}

/// Whether a request is accepted or refused, and which refusal it gets, depends only on its
/// recorded id, preset, view name and input file name: its sub directory is never checked, so
/// an empty one is accepted.
pub proof fn law_verdict_ignores_sub_directory(a: BridgeRequest, b: BridgeRequest)
    requires
        a.recorded_id == b.recorded_id,
        a.input_filename@ == b.input_filename@,
        a.preset@ == b.preset@,
        a.view_name@ == b.view_name@,
    ensures
        a.verdict() == b.verdict(),
{
}

/// A request is accepted exactly when its recorded id is positive, its preset and view name
/// are not blank and its input file name is plain; each refusal names a check that failed.
pub proof fn law_refusal_names_a_failed_check(r: BridgeRequest)
    ensures
        r.verdict() is Ok <==> (r.recorded_id > 0 && !is_blank_text(r.preset@) && !is_blank_text(r.view_name@)
            && plain_filename(r.input_filename@)),
        r.verdict() == Err::<(), RequestError>(RequestError::RecordedIdNotPositive) <==> r.recorded_id == 0,
        r.verdict() == Err::<(), RequestError>(RequestError::PresetEmpty) ==> is_blank_text(r.preset@),
        r.verdict() == Err::<(), RequestError>(RequestError::ViewNameEmpty) ==> is_blank_text(r.view_name@),
        r.verdict() == Err::<(), RequestError>(RequestError::InputFilenameNotPlain) ==> !plain_filename(r.input_filename@),
{
}

/// Whether `value` is a plain file name (see `plain_filename`).
pub fn is_plain_filename(value: &str) -> (b: bool)
    ensures
        b == plain_filename(value@),
{
    broadcast use vstd::string::group_string_axioms;
    // `seen` counts the characters read so far, up to 3; `dots` counts the leading dots among them.
    let mut seen: u8 = 0;
    let mut dots: u8 = 0;
    let ghost s = value@;
    for c in it: value.chars()
        invariant
            it.seq() == s,
            s == value@,
            seen as int == if it.index() < 3 { it.index() as int } else { 3 },
            dots <= seen,
            forall|j: int| 0 <= j < it.index() ==> (#[trigger] s[j] != '/' && s[j] != '\\' && s[j] != '\0'),
            dots == seen <==> (forall|j: int| 0 <= j < seen ==> #[trigger] s[j] == '.'),
    {
        if c == '/' || c == '\\' || c == '\0' {
            assert(s[it.index() as int] == c);
            assert(s.contains('/') || s.contains('\\') || s.contains('\0'));
            return false;
        }
        if seen < 3 {
            if c == '.' && dots == seen {
                dots = dots + 1;
            }
            seen = seen + 1;
        }
    }
    proof {
        if seen == 1 && dots == 1 {
            assert(s =~= seq!['.']);
        }
        if seen == 2 && dots == 2 {
            assert(s =~= seq!['.', '.']);
        }
        if seen == 1 && dots != 1 {
            assert(s[0] != '.');
        }
        if seen == 2 && dots != 2 {
            assert(s[0] != '.' || s[1] != '.');
        }
        if seen == 3 {
            assert(s.len() >= 3);
        }
        assert(!s.contains('/') && !s.contains('\\') && !s.contains('\0')) by {
            assert forall|j: int| 0 <= j < s.len() implies s[j] != '/' && s[j] != '\\' && s[j] != '\0' by {
            }
        }
    }
    seen > 0 && !(seen == 1 && dots == 1) && !(seen == 2 && dots == 2)
}

/// The fields by which two requests are recognised as the same request.
pub struct RequestKey {
    pub recorded_id: u64,
    pub input_filename: String,
    pub preset: String,
    pub sub_directory: String,
    pub view_name: String,
}

/// The plain-value form of a request key.
pub struct KeyView {
    pub recorded_id: u64,
    pub input_filename: Seq<char>,
    pub preset: Seq<char>,
    pub sub_directory: Seq<char>,
    pub view_name: Seq<char>,
}

impl View for RequestKey {
    type V = KeyView;

    open spec fn view(&self) -> KeyView {
        KeyView {
            recorded_id: self.recorded_id,
            input_filename: self.input_filename@,
            preset: self.preset@,
            sub_directory: self.sub_directory@,
            view_name: self.view_name@,
        }
    }
}

impl BridgeRequest {
    /// The key of this request.
    pub open spec fn key(&self) -> KeyView {
        KeyView {
            recorded_id: self.recorded_id,
            input_filename: self.input_filename@,
            preset: self.preset@,
            sub_directory: self.sub_directory@,
            view_name: self.view_name@,
        }
    }
}

impl RequestKey {
    /// The key of `request`: all five of its fields.
    pub fn from(request: &BridgeRequest) -> (key: RequestKey)
        ensures
            key@ == request.key(),
    {
        RequestKey {
            recorded_id: request.recorded_id,
            input_filename: request.input_filename.clone(),
            preset: request.preset.clone(),
            sub_directory: request.sub_directory.clone(),
            view_name: request.view_name.clone(),
        }
    }

    /// A copy of this key.
    pub fn duplicate(&self) -> (key: RequestKey)
        ensures
            key@ == self@,
    {
        RequestKey {
            recorded_id: self.recorded_id,
            input_filename: self.input_filename.clone(),
            preset: self.preset.clone(),
            sub_directory: self.sub_directory.clone(),
            view_name: self.view_name.clone(),
        }
    }

    /// Whether two keys name the same request.
    pub fn same_as(&self, other: &RequestKey) -> (b: bool)
        ensures
            b == (self@ == other@),
    {
        self.recorded_id == other.recorded_id && self.input_filename == other.input_filename
            && self.preset == other.preset && self.sub_directory == other.sub_directory
            && self.view_name == other.view_name
    }
}

} // verus!
