//! The decisions the bridge takes while it hands an encode to Amatsukaze: the queue request it
//! sends, which queue item is its own, whether the encode has ended, and which file is the
//! encoded output.
use vstd::prelude::*;
use crate::files::{same_path, same_path_as};
use crate::http::{json_bool_member, json_bool_member_of};
use crate::ids::{uuid_text, workflow_id_text};
use crate::text::{char_from_ascii_code, eq_ignore_ascii_case, equal_ignoring_ascii_case, push_char, same_text};

verus! {

/// The priority of the bridge's queue items.
pub const QUEUE_PRIORITY: i32 = 3;

/// One item of Amatsukaze's queue.
pub struct QueueItem {
    pub id: i64,
    pub src_path: String,
    pub state: String,
    pub state_label: String,
}

/// The request that adds one input file to Amatsukaze's queue.
pub struct QueueAddRequest {
    pub dir_path: String,
    pub target_path: String,
    pub mode: String,
    pub dst_path: String,
    pub profile: String,
    pub priority: i32,
    pub request_id: String,
}

/// The plain-value form of a queue request.
pub struct QueueAddView {
    pub dir_path: Seq<char>,
    pub target_path: Seq<char>,
    pub mode: Seq<char>,
    pub dst_path: Seq<char>,
    pub profile: Seq<char>,
    pub priority: i32,
    pub request_id: Seq<char>,
}

impl View for QueueAddRequest {
    type V = QueueAddView;

    open spec fn view(&self) -> QueueAddView {
        QueueAddView {
            dir_path: self.dir_path@,
            target_path: self.target_path@,
            mode: self.mode@,
            dst_path: self.dst_path@,
            profile: self.profile@,
            priority: self.priority,
            request_id: self.request_id@,
        }
    }
}

/// The queue request for encoding `input_path` (in `input_dir`) with profile `preset` into
/// `output_dir`, for a recording and a workflow.
pub open spec fn queue_add_spec(
    recorded_id: u64,
    workflow_id: u128,
    preset: Seq<char>,
    input_path: Seq<char>,
    input_dir: Seq<char>,
    output_dir: Seq<char>,
) -> QueueAddView {
    QueueAddView {
        dir_path: input_dir,
        target_path: input_path,
        mode: "AutoBatch"@,
        dst_path: output_dir,
        profile: preset,
        priority: QUEUE_PRIORITY,
        request_id: request_id_text(recorded_id, workflow_id),
    }
}

/// The decimal digit for `d < 10`.
pub open spec fn digit_char(d: nat) -> char {
    (48 + d) as char
}

/// The decimal form of a number, as the `Display` of unsigned integers writes it.
pub open spec fn decimal_text(n: nat) -> Seq<char>
    decreases n,
{
    if n < 10 {
        seq![digit_char(n)]
    } else {
        decimal_text(n / 10).push(digit_char(n % 10))
    }
}

/// The number a text of decimal digits stands for, read left to right in base 10.
pub open spec fn digits_value(s: Seq<char>) -> int
    decreases s.len(),
{
    if s.len() == 0 {
        0
    } else {
        digits_value(s.drop_last()) * 10 + (s.last() as int - 48)
    }
}

/// `decimal_text(n)` is how `n` is written in decimal: it is not empty, every character is a
/// digit `0`..`9`, it starts with `0` only when it is `0` itself, and reading its digits back
/// in base 10 gives `n`.
pub proof fn law_decimal_text_reads_back(n: nat)
    ensures
        decimal_text(n).len() > 0,
        forall|i: int| 0 <= i < decimal_text(n).len() ==> '0' <= #[trigger] decimal_text(n)[i] <= '9',
        decimal_text(n)[0] == '0' ==> n == 0 && decimal_text(n).len() == 1,
        digits_value(decimal_text(n)) == n,
    decreases n,
{
    if n < 10 {
        assert(digits_value(decimal_text(n)) == digits_value(decimal_text(n).drop_last()) * 10 + (n as int));
        assert(decimal_text(n).drop_last() =~= Seq::<char>::empty());
    } else {
        let q = n / 10;
        let d = n % 10;
        law_decimal_text_reads_back(q);
        let t = decimal_text(n);
        assert(t.drop_last() =~= decimal_text(q));
        assert(t[0] == decimal_text(q)[0]);
        assert forall|i: int| 0 <= i < t.len() implies '0' <= #[trigger] t[i] <= '9' by {
            if i < t.len() - 1 {
                assert(t[i] == decimal_text(q)[i]);
            }
        }
        assert(q * 10 + d == n) by (nonlinear_arith)
            requires
                q == n / 10,
                d == n % 10,
        ;
    }
}

/// Different numbers are written differently in decimal.
pub proof fn law_decimal_text_distinct(m: nat, n: nat)
    ensures
        decimal_text(m) == decimal_text(n) ==> m == n,
{
    law_decimal_text_reads_back(m);
    law_decimal_text_reads_back(n);
}

/// The decimal form of `n` (see `decimal_text`).
pub fn u64_text(n: u64) -> (s: String)
    ensures
        s@ == decimal_text(n as nat),
        digits_value(s@) == n,
    decreases n,
{
    proof { law_decimal_text_reads_back(n as nat); }
    let digit = char_from_ascii_code((48 + n % 10) as u32);
    if n < 10 {
        let mut s = String::new();
        push_char(&mut s, digit);
        assert(s@ =~= seq![digit_char(n as nat)]);
        s
    } else {
        let mut s = u64_text(n / 10);
        push_char(&mut s, digit);
        s
    }
}

/// The identifier the bridge gives its queue request for a recording and a workflow.
pub open spec fn request_id_text(recorded_id: u64, workflow_id: u128) -> Seq<char> {
    "epgstation-recorded-"@ + decimal_text(recorded_id as nat) + "-"@ + uuid_text(workflow_id)
}

/// The queue request for encoding `input_path` (in `input_dir`) with profile `preset` into
/// `output_dir`.
pub fn queue_add_request(
    recorded_id: u64,
    workflow_id: u128,
    preset: &str,
    input_path: &str,
    input_dir: &str,
    output_dir: &str,
) -> (req: QueueAddRequest)
    ensures
        req@ == queue_add_spec(recorded_id, workflow_id, preset@, input_path@, input_dir@, output_dir@),
{
    let mut request_id = "epgstation-recorded-".to_owned();
    request_id.append(u64_text(recorded_id).as_str());
    request_id.append("-");
    request_id.append(workflow_id_text(workflow_id).as_str());
    QueueAddRequest {
        dir_path: input_dir.to_owned(),
        target_path: input_path.to_owned(),
        mode: "AutoBatch".to_owned(),
        dst_path: output_dir.to_owned(),
        profile: preset.to_owned(),
        priority: QUEUE_PRIORITY,
        request_id,
    }
}

/// Whether queue item `item` is the bridge's new item for `input_path`: its id was not in the
/// queue before the request, and its source is the input file.
pub open spec fn is_submitted_item(previous_ids: Seq<i64>, item: QueueItem, input_path: Seq<char>, windows: bool) -> bool {
    !previous_ids.contains(item.id) && same_path_as(item.src_path@, input_path, windows)
}

/// Where the bridge's new queue item stands in `items`: the first item that
/// `is_submitted_item`, if any.
pub fn find_submitted_item(previous_ids: &Vec<i64>, items: &Vec<QueueItem>, input_path: &str, windows: bool) -> (res: Option<usize>)
    ensures
        match res {
            Some(i) => i < items.len() && is_submitted_item(previous_ids@, items@[i as int], input_path@, windows)
                && forall|j: int| 0 <= j < i ==> !is_submitted_item(previous_ids@, #[trigger] items@[j], input_path@, windows),
            None => forall|j: int| 0 <= j < items.len() ==> !is_submitted_item(previous_ids@, #[trigger] items@[j], input_path@, windows),
        },
{
    let mut i: usize = 0;
    while i < items.len()
        invariant
            i <= items.len(),
            forall|j: int| 0 <= j < i ==> !is_submitted_item(previous_ids@, #[trigger] items@[j], input_path@, windows),
        decreases items.len() - i,
    {
        let item = &items[i];
        if !contains_id(previous_ids, item.id) && same_path(item.src_path.as_str(), input_path, windows) {
            return Some(i);
        }
        i = i + 1;
    }
    None
}

/// Whether `ids` holds `id`.
fn contains_id(ids: &Vec<i64>, id: i64) -> (b: bool)
    ensures
        b == ids@.contains(id),
{
    let mut i: usize = 0;
    while i < ids.len()
        invariant
            i <= ids.len(),
            forall|j: int| 0 <= j < i ==> ids@[j] != id,
        decreases ids.len() - i,
    {
        if ids[i] == id {
            return true;
        }
        i = i + 1;
    }
    false
}

/// What to do after reading the queue while looking for the bridge's new item.
#[derive(Clone, Copy, Debug, PartialEq, Eq, Structural)]
pub enum SubmitPoll {
    /// The item at this position is the bridge's.
    Found(usize),
    /// `submitted Amatsukaze queue item was not found`: the time to look is over.
    NotFound,
    /// Read the queue again a second later.
    Retry,
}

/// Decides, after reading the queue, whether the new item was found, or whether to look again
/// or give up (`deadline_passed`: the thirty seconds allowed are over).
pub fn poll_submitted(
    previous_ids: &Vec<i64>,
    items: &Vec<QueueItem>,
    input_path: &str,
    windows: bool,
    deadline_passed: bool,
) -> (res: SubmitPoll)
    ensures
        match res {
            SubmitPoll::Found(i) => i < items.len() && is_submitted_item(previous_ids@, items@[i as int], input_path@, windows)
                && forall|j: int| 0 <= j < i ==> !is_submitted_item(previous_ids@, #[trigger] items@[j], input_path@, windows),
            SubmitPoll::NotFound => deadline_passed
                && forall|j: int| 0 <= j < items.len() ==> !is_submitted_item(previous_ids@, #[trigger] items@[j], input_path@, windows),
            SubmitPoll::Retry => !deadline_passed
                && forall|j: int| 0 <= j < items.len() ==> !is_submitted_item(previous_ids@, #[trigger] items@[j], input_path@, windows),
        },
{
    match find_submitted_item(previous_ids, items, input_path, windows) {
        Some(i) => SubmitPoll::Found(i),
        None => if deadline_passed {
            SubmitPoll::NotFound
        } else {
            SubmitPoll::Retry
        },
    }
}

/// Queue states in which an encode has ended without success.
pub open spec fn is_failed_state(state: Seq<char>) -> bool {
    state == "Failed"@ || state == "PreFailed"@ || state == "Canceled"@
}

/// What the bridge learns from one reading of the queue while it waits for its item.
#[derive(Clone, Copy, Debug, PartialEq, Eq, Structural)]
pub enum EncodePoll {
    /// The item is `Complete`.
    Complete,
    /// `Amatsukaze workflow ended as <state> (<label>)`: the item at this position failed or
    /// was cancelled.
    Ended(usize),
    /// `Amatsukaze queue item <id> disappeared`
    Disappeared,
    /// `timed out waiting for Amatsukaze queue item <id>`
    TimedOut,
    /// Read the queue again after the poll interval.
    Retry,
}

/// The position of the first item of `items` with id `id`.
pub open spec fn first_with_id(items: Seq<QueueItem>, id: i64, i: int) -> bool {
    0 <= i < items.len() && items[i].id == id && forall|j: int| 0 <= j < i ==> (#[trigger] items[j]).id != id
}

/// Decides, after reading the queue, whether encode `queue_item_id` is done
/// (`deadline_passed`: the encode timeout is over).
pub fn poll_encode(items: &Vec<QueueItem>, queue_item_id: i64, deadline_passed: bool) -> (res: EncodePoll)
    ensures
        match res {
            EncodePoll::Disappeared => forall|j: int| 0 <= j < items.len() ==> (#[trigger] items@[j]).id != queue_item_id,
            EncodePoll::Complete => exists|i: int| first_with_id(items@, queue_item_id, i) && items@[i].state@ == "Complete"@,
            EncodePoll::Ended(i) => first_with_id(items@, queue_item_id, i as int) && is_failed_state(items@[i as int].state@),
            EncodePoll::TimedOut => deadline_passed && exists|i: int| first_with_id(items@, queue_item_id, i)
                && items@[i].state@ != "Complete"@ && !is_failed_state(items@[i].state@),
            EncodePoll::Retry => !deadline_passed && exists|i: int| first_with_id(items@, queue_item_id, i)
                && items@[i].state@ != "Complete"@ && !is_failed_state(items@[i].state@),
        },
{
    let mut i: usize = 0;
    while i < items.len()
        invariant
            i <= items.len(),
            forall|j: int| 0 <= j < i ==> (#[trigger] items@[j]).id != queue_item_id,
        decreases items.len() - i,
    {
        if items[i].id == queue_item_id {
            let state = items[i].state.as_str();
            assert(first_with_id(items@, queue_item_id, i as int));
            if same_text(state, "Complete") {
                return EncodePoll::Complete;
            }
            if same_text(state, "Failed") || same_text(state, "PreFailed") || same_text(state, "Canceled") {
                return EncodePoll::Ended(i);
            }
            if deadline_passed {
                return EncodePoll::TimedOut;
            }
            return EncodePoll::Retry;
        }
        i = i + 1;
    }
    EncodePoll::Disappeared
}

/// Whether a file in the output directory, whose stem is `entry_stem` (`None` when it is not
/// UTF-8), is named like the input: same stem up to ASCII case.
pub fn output_matches(entry_stem: Option<&str>, input_stem: &str) -> (b: bool)
    ensures
        b == match entry_stem {
            Some(s) => equal_ignoring_ascii_case(s@, input_stem@),
            None => false,
        },
{
    match entry_stem {
        Some(s) => eq_ignore_ascii_case(s, input_stem),
        None => false,
    }
}

/// What the bridge concludes from one listing of the output directory.
#[derive(Clone, Copy, Debug, PartialEq, Eq, Structural)]
pub enum LocatePoll {
    /// The one non-empty file named like the input is the output.
    Found,
    /// `Amatsukaze did not create a non-empty output named <stem> with any extension`
    Missing,
    /// `Amatsukaze created <count> outputs named <stem> with different extensions`
    Ambiguous(usize),
    /// List the directory again two seconds later.
    Retry,
}

/// Decides from the number of non-empty files named like the input (`deadline_passed`: the
/// minute allowed is over).
pub fn poll_output(matches: usize, deadline_passed: bool) -> (res: LocatePoll)
    ensures
        res == if matches == 1 {
            LocatePoll::Found
        } else if matches == 0 && !deadline_passed {
            LocatePoll::Retry
        } else if matches == 0 {
            LocatePoll::Missing
        } else {
            LocatePoll::Ambiguous(matches)
        },
{
    if matches == 1 {
        LocatePoll::Found
    } else if matches == 0 {
        if deadline_passed {
            LocatePoll::Missing
        } else {
            LocatePoll::Retry
        }
    } else {
        LocatePoll::Ambiguous(matches)
    }
}

/// Why Amatsukaze was found unhealthy.
#[derive(Clone, Copy, Debug, PartialEq, Eq, Structural)]
pub enum HealthError {
    /// `Amatsukaze health check failed`
    Unhealthy,
}

/// The health verdict from the `ok` member of the health reply.
pub fn health_verdict(ok: Option<bool>) -> (res: Result<(), HealthError>)
    ensures
        res == health_verdict_of(ok),
{
    match ok {
        Some(true) => Ok(()),
        _ => Err(HealthError::Unhealthy),
    }
}

/// Checks the JSON body of the reply of `api/health`: Amatsukaze is healthy when its `ok`
/// member is `true`.
pub fn verify_health(body: &[u8]) -> (res: Result<(), HealthError>)
    ensures
        res == health_verdict_of(json_bool_member_of(body@, "ok"@)),
{
    let ok = json_bool_member(body, "ok");
    health_verdict(ok)
}

/// What `health_verdict` answers.
pub open spec fn health_verdict_of(ok: Option<bool>) -> Result<(), HealthError> {
    if ok == Some(true) {
        Ok(())
    } else {
        Err(HealthError::Unhealthy)
    }
}

} // verus!
