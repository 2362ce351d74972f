//! The in-memory table of workflows and the index that recognises repeated requests.
use vstd::prelude::*;
use std::collections::HashMap;
use crate::clock::{now, Timestamp};
use crate::ids::new_workflow_id;
use crate::request::{BridgeRequest, KeyView, RequestKey};
use crate::status::{
    failed, fresh_status, record_key, succeeded, with_output, with_queue_item, with_stage, StatusView,
    WorkflowStage, WorkflowState, WorkflowStatus,
};

verus! {

broadcast use vstd::std_specs::hash::group_hash_axioms;

/// One entry of the request index: a request in progress and the workflow that serves it.
pub struct IndexEntry {
    pub key: RequestKey,
    pub workflow_id: u128,
}

/// What `submit` answers: the workflow serving the request and whether it already existed.
#[derive(Clone, Copy, Debug, PartialEq, Eq, Structural)]
pub struct Submission {
    pub workflow_id: u128,
    pub existing: bool,
}

/// All workflows the bridge knows of, and the requests still in progress.
pub struct Workflows {
    statuses: HashMap<u128, WorkflowStatus>,
    index: Vec<IndexEntry>,
}

/// The plain-value form of the table.
pub struct WorkflowsView {
    pub statuses: Map<u128, StatusView>,
    pub index: Seq<(KeyView, u128)>,
}

pub open spec fn entry_view(e: IndexEntry) -> (KeyView, u128) {
    (e.key@, e.workflow_id)
}

impl View for Workflows {
    type V = WorkflowsView;

    closed spec fn view(&self) -> WorkflowsView {
        contents_view(self.statuses, self.index)
    }
}

/// The workflow recorded for `key` in `index`, if any (the latest entry wins).
pub open spec fn index_lookup(index: Seq<(KeyView, u128)>, key: KeyView) -> Option<u128>
    decreases index.len(),
{
    if index.len() == 0 {
        None
    } else if index.last().0 == key {
        Some(index.last().1)
    } else {
        index_lookup(index.drop_last(), key)
    }
}

/// `index` without the entries for `key`.
pub open spec fn index_without(index: Seq<(KeyView, u128)>, key: KeyView) -> Seq<(KeyView, u128)>
    decreases index.len(),
{
    if index.len() == 0 {
        index
    } else if index.last().0 == key {
        index_without(index.drop_last(), key)
    } else {
        index_without(index.drop_last(), key).push(index.last())
    }
}

/// No request appears twice in the index.
pub open spec fn keys_distinct(index: Seq<(KeyView, u128)>) -> bool {
    forall|i: int, j: int| 0 <= i < j < index.len() ==> index[i].0 != index[j].0
}

impl WorkflowsView {
    /// The table's invariant: each request is indexed once, every indexed workflow has a
    /// record, and each record is filed under its own identifier.
    pub open spec fn wf(self) -> bool {
        &&& keys_distinct(self.index)
        &&& forall|i: int| 0 <= i < self.index.len() ==> self.statuses.contains_key(#[trigger] self.index[i].1)
        &&& forall|id: u128| #[trigger] self.statuses.contains_key(id) ==> self.statuses[id].workflow_id == id
    }

    /// The table after `f` was applied to the record of `id`, if there is one.
    pub open spec fn update(self, id: u128, f: spec_fn(StatusView) -> StatusView) -> WorkflowsView {
        if self.statuses.contains_key(id) {
            WorkflowsView { statuses: self.statuses.insert(id, f(self.statuses[id])), ..self }
        } else {
            self
        }
    }

    /// The table once the request `key` is no longer in progress.
    pub open spec fn release(self, key: KeyView) -> WorkflowsView {
        WorkflowsView { index: index_without(self.index, key), ..self }
    }
}

/// The table and answer after `request` was submitted, with `id` as the identifier a new
/// workflow would get and `now` as the time.
pub open spec fn submit_spec(w: WorkflowsView, request: KeyView, id: u128, now: Timestamp) -> (WorkflowsView, Submission) {
    match index_lookup(w.index, request) {
        Some(existing) => (w, Submission { workflow_id: existing, existing: true }),
        None => (
            WorkflowsView {
                statuses: w.statuses.insert(id, fresh_status(id, request, now)),
                index: w.index.push((request, id)),
            },
            Submission { workflow_id: id, existing: false },
        ),
    }
}

/// An index has no entry for `key` exactly when its lookup finds nothing.
pub proof fn lemma_lookup_none(index: Seq<(KeyView, u128)>, key: KeyView)
    ensures
        index_lookup(index, key) is None <==> forall|i: int| 0 <= i < index.len() ==> index[i].0 != key,
    decreases index.len(),
{
    if index.len() > 0 {
        lemma_lookup_none(index.drop_last(), key);
        assert forall|i: int| 0 <= i < index.len() - 1 implies index.drop_last()[i] == index[i] by {}
    }
}

/// A lookup that succeeds names an entry of the index.
pub proof fn lemma_lookup_some(index: Seq<(KeyView, u128)>, key: KeyView)
    ensures
        index_lookup(index, key) matches Some(id) ==> exists|i: int| 0 <= i < index.len() && index[i] == (key, id),
    decreases index.len(),
{
    if index.len() > 0 {
        lemma_lookup_some(index.drop_last(), key);
        if index.last().0 == key {
            assert(index[index.len() - 1] == (key, index.last().1));
        } else if let Some(id) = index_lookup(index, key) {
            let i = choose|i: int| 0 <= i < index.drop_last().len() && index.drop_last()[i] == (key, id);
            assert(index[i] == (key, id));
        }
    }
}

/// Every entry of `index_without(index, key)` is an entry of `index` whose key is not `key`,
/// and the relative order and distinctness are kept.
pub proof fn lemma_without(index: Seq<(KeyView, u128)>, key: KeyView)
    ensures
        forall|i: int| 0 <= i < index_without(index, key).len() ==>
            index_without(index, key)[i].0 != key && index.contains(#[trigger] index_without(index, key)[i]),
        keys_distinct(index) ==> keys_distinct(index_without(index, key)),
        index_lookup(index_without(index, key), key) is None,
        forall|k: KeyView| k != key ==> #[trigger] index_lookup(index_without(index, key), k) == index_lookup(index, k),
    decreases index.len(),
{
    if index.len() > 0 {
        let rest = index.drop_last();
        lemma_without(rest, key);
        let w = index_without(index, key);
        let wr = index_without(rest, key);
        assert forall|i: int| 0 <= i < w.len() implies w[i].0 != key && index.contains(#[trigger] w[i]) by {
            if index.last().0 == key {
                assert(rest.contains(wr[i]));
                let j = choose|j: int| 0 <= j < rest.len() && rest[j] == wr[i];
                assert(index[j] == w[i]);
            } else if i < wr.len() {
                assert(w[i] == wr[i]);
                assert(rest.contains(wr[i]));
                let j = choose|j: int| 0 <= j < rest.len() && rest[j] == wr[i];
                assert(index[j] == w[i]);
            } else {
                assert(w[i] == index[index.len() - 1]);
            }
        }
        if keys_distinct(index) {
            assert(keys_distinct(rest)) by {
                assert forall|i: int, j: int| 0 <= i < j < rest.len() implies rest[i].0 != rest[j].0 by {
                    assert(rest[i] == index[i] && rest[j] == index[j]);
                }
            }
            if index.last().0 != key {
                assert forall|i: int, j: int| 0 <= i < j < w.len() implies w[i].0 != w[j].0 by {
                    if j == w.len() - 1 {
                        assert(w[j] == index.last());
                        assert(w[i] == wr[i]);
                        assert(rest.contains(wr[i]));
                        let k = choose|k: int| 0 <= k < rest.len() && rest[k] == wr[i];
                        assert(index[k] == wr[i]);
                    } else {
                        assert(w[i] == wr[i] && w[j] == wr[j]);
                    }
                }
            }
        }
        if index.last().0 != key {
            assert(w.drop_last() =~= wr);
            assert forall|k: KeyView| k != key implies #[trigger] index_lookup(w, k) == index_lookup(index, k) by {
                assert(index_lookup(wr, k) == index_lookup(rest, k));
            }
        } else {
            assert forall|k: KeyView| k != key implies #[trigger] index_lookup(w, k) == index_lookup(index, k) by {
                assert(index_lookup(wr, k) == index_lookup(rest, k));
            }
        }
    }
}

/// A request submitted again while its first submission is still in progress is answered
/// with the workflow of the first submission, and the table does not change.
pub proof fn law_resubmission_joins_existing(
    w: WorkflowsView,
    request: KeyView,
    id1: u128,
    t1: Timestamp,
    id2: u128,
    t2: Timestamp,
)
    requires
        w.wf(),
    ensures
        ({
            let (w1, s1) = submit_spec(w, request, id1, t1);
            let (w2, s2) = submit_spec(w1, request, id2, t2);
            &&& s2 == Submission { workflow_id: s1.workflow_id, existing: true }
            &&& w2 == w1
        }),
{
}

/// After a submission the request is indexed to the workflow that was answered, whose record
/// exists; a new workflow starts queued at the accepted stage.
pub proof fn law_submission_is_recorded(w: WorkflowsView, request: KeyView, id: u128, t: Timestamp)
    requires
        w.wf(),
    ensures
        ({
            let (w1, s) = submit_spec(w, request, id, t);
            &&& w1.wf()
            &&& index_lookup(w1.index, request) == Some(s.workflow_id)
            &&& w1.statuses.contains_key(s.workflow_id)
            &&& !s.existing ==> w1.statuses[s.workflow_id] == fresh_status(id, request, t)
                && s.workflow_id == id
        }),
{
    match index_lookup(w.index, request) {
        Some(existing) => {
            lemma_lookup_some(w.index, request);
            let i = choose|i: int| 0 <= i < w.index.len() && w.index[i] == (request, existing);
            assert(w.statuses.contains_key(w.index[i].1));
        },
        None => {
            lemma_lookup_none(w.index, request);
            let w1 = submit_spec(w, request, id, t).0;
            assert(w1.index.drop_last() =~= w.index);
            assert forall|i: int, j: int| 0 <= i < j < w1.index.len() implies w1.index[i].0 != w1.index[j].0 by {
                if j < w.index.len() {
                    assert(w1.index[i] == w.index[i] && w1.index[j] == w.index[j]);
                } else {
                    assert(w1.index[i] == w.index[i]);
                }
            }
            assert forall|i: int| 0 <= i < w1.index.len() implies w1.statuses.contains_key(#[trigger] w1.index[i].1) by {
                if i < w.index.len() {
                    assert(w1.index[i] == w.index[i]);
                }
            }
        },
    }
}

/// A submission that starts a new workflow under an identifier the table does not hold yet
/// adds exactly one record, made for the submitted request, and leaves every other record as
/// it was.
pub proof fn law_new_submission_adds_own_record(w: WorkflowsView, request: KeyView, id: u128, t: Timestamp)
    requires
        w.wf(),
        index_lookup(w.index, request) is None,
        !w.statuses.contains_key(id),
    ensures
        ({
            let (w1, s) = submit_spec(w, request, id, t);
            &&& s == Submission { workflow_id: id, existing: false }
            &&& w1.statuses.dom() == w.statuses.dom().insert(id)
            &&& record_key(w1.statuses[id]) == request
            &&& forall|other: u128| #[trigger] w.statuses.contains_key(other) ==> w1.statuses[other] == w.statuses[other]
        }),
{
    let (w1, s) = submit_spec(w, request, id, t);
    assert(w1.statuses.dom() =~= w.statuses.dom().insert(id));
}

/// Two different requests submitted one after the other, each under an identifier the table
/// does not hold yet, get two different workflows, each with a record made for its own request.
pub proof fn law_distinct_requests_get_distinct_workflows(
    w: WorkflowsView,
    a: KeyView,
    b: KeyView,
    id1: u128,
    t1: Timestamp,
    id2: u128,
    t2: Timestamp,
)
    requires
        w.wf(),
        a != b,
        index_lookup(w.index, a) is None,
        index_lookup(w.index, b) is None,
        !w.statuses.contains_key(id1),
        !submit_spec(w, a, id1, t1).0.statuses.contains_key(id2),
    ensures
        ({
            let (w1, s1) = submit_spec(w, a, id1, t1);
            let (w2, s2) = submit_spec(w1, b, id2, t2);
            &&& !s1.existing && !s2.existing
            &&& s1.workflow_id != s2.workflow_id
            &&& record_key(w2.statuses[s1.workflow_id]) == a
            &&& record_key(w2.statuses[s2.workflow_id]) == b
            &&& index_lookup(w2.index, a) == Some(s1.workflow_id)
            &&& index_lookup(w2.index, b) == Some(s2.workflow_id)
        }),
{
    let (w1, s1) = submit_spec(w, a, id1, t1);
    assert(w1.index.drop_last() =~= w.index);
    law_submission_is_recorded(w, a, id1, t1);
    law_new_submission_adds_own_record(w, a, id1, t1);
    law_new_submission_adds_own_record(w1, b, id2, t2);
    let (w2, s2) = submit_spec(w1, b, id2, t2);
    assert(w2.index.drop_last() =~= w1.index);
}

/// Once a request is released, submitting it again starts a new workflow under the new
/// identifier; the requests of other workflows keep their entries.
pub proof fn law_release_then_submit_starts_new(w: WorkflowsView, request: KeyView, id: u128, t: Timestamp)
    requires
        w.wf(),
    ensures
        index_lookup(w.release(request).index, request) is None,
        submit_spec(w.release(request), request, id, t).1 == (Submission { workflow_id: id, existing: false }),
        forall|other: KeyView| other != request ==> #[trigger] index_lookup(w.release(request).index, other) == index_lookup(w.index, other),
        w.release(request).statuses == w.statuses,
{
    lemma_without(w.index, request);
}

/// The plain-value form of a table with these contents.
spec fn contents_view(statuses: HashMap<u128, WorkflowStatus>, index: Vec<IndexEntry>) -> WorkflowsView {
    WorkflowsView {
        statuses: statuses@.map_values(|s: WorkflowStatus| s@),
        index: index@.map_values(|e: IndexEntry| entry_view(e)),
    }
}

impl Workflows {
    /// The table always keeps its invariant (see `WorkflowsView::wf`).
    #[verifier::type_invariant]
    pub open spec fn keeps_invariant(self) -> bool {
        self@.wf()
    }

    /// An empty table.
    pub fn new() -> (w: Workflows)
        ensures
            w@.statuses == Map::<u128, StatusView>::empty(),
            w@.index == Seq::<(KeyView, u128)>::empty(),
            w@.wf(),
    {
        let statuses: HashMap<u128, WorkflowStatus> = HashMap::new();
        let index: Vec<IndexEntry> = Vec::new();
        assert(contents_view(statuses, index).statuses =~= Map::<u128, StatusView>::empty());
        assert(contents_view(statuses, index).index =~= Seq::<(KeyView, u128)>::empty());
        Workflows { statuses, index }
    }

    /// Takes the table's contents out, leaving it empty.
    fn take_contents(&mut self) -> (res: (HashMap<u128, WorkflowStatus>, Vec<IndexEntry>))
        ensures
            contents_view(res.0, res.1) == old(self)@,
            old(self)@.wf(),
    {
        proof { use_type_invariant(&*self); }
        let mut w = Workflows::new();
        std::mem::swap(self, &mut w);
        let Workflows { statuses, index } = w;
        (statuses, index)
    }

    /// The record of workflow `workflow_id`, if the bridge knows it.
    pub fn workflow(&self, workflow_id: u128) -> (res: Option<&WorkflowStatus>)
        ensures
            match res {
                Some(s) => self@.statuses.contains_key(workflow_id) && s@ == self@.statuses[workflow_id],
                None => !self@.statuses.contains_key(workflow_id),
            },
    {
        self.statuses.get(&workflow_id)
    }

    /// The workflow serving `key`, if the request is in progress.
    pub fn lookup(&self, key: &RequestKey) -> (res: Option<u128>)
        ensures
            res == index_lookup(self@.index, key@),
    {
        let ghost idx = self@.index;
        let mut i = self.index.len();
        assert(idx.take(i as int) =~= idx);
        while i > 0
            invariant
                idx == self@.index,
                i <= self.index.len(),
                index_lookup(idx, key@) == index_lookup(idx.take(i as int), key@),
            decreases i,
        {
            let e = &self.index[i - 1];
            assert(idx.take(i as int).drop_last() =~= idx.take(i - 1));
            assert(idx[i - 1] == entry_view(self.index@[i - 1]));
            if e.key.same_as(key) {
                return Some(e.workflow_id);
            }
            i = i - 1;
        }
        None
    }

    /// Submits `request`: the workflow already serving the same request is answered if there
    /// is one; otherwise a new workflow is recorded under `workflow_id`, accepted at `now`.
    pub fn submit_at(&mut self, request: &BridgeRequest, workflow_id: u128, now: Timestamp) -> (res: Submission)
        ensures
            (final(self)@, res) == submit_spec(old(self)@, request.key(), workflow_id, now),
            final(self)@.wf(),
    {
        let key = RequestKey::from(request);
        match self.lookup(&key) {
            Some(existing) => {
                proof { use_type_invariant(&*self); }
                Submission { workflow_id: existing, existing: true }
            },
            None => {
                let ghost w0 = self@;
                proof { lemma_lookup_none(w0.index, key@); }
                let (mut statuses, mut index) = self.take_contents();
                let status = WorkflowStatus::new_at(workflow_id, request, now);
                statuses.insert(workflow_id, status);
                index.push(IndexEntry { key, workflow_id });
                let ghost w1 = contents_view(statuses, index);
                let ghost expected = submit_spec(w0, request.key(), workflow_id, now).0;
                assert(w1.statuses =~= expected.statuses);
                assert(w1.index =~= expected.index);
                proof {
                    assert forall|i: int, j: int| 0 <= i < j < w1.index.len() implies w1.index[i].0 != w1.index[j].0 by {
                        if j < w0.index.len() {
                            assert(w1.index[i] == w0.index[i] && w1.index[j] == w0.index[j]);
                        } else {
                            assert(w1.index[i] == w0.index[i]);
                        }
                    }
                    assert forall|i: int| 0 <= i < w1.index.len() implies w1.statuses.contains_key(#[trigger] w1.index[i].1) by {
                        if i < w0.index.len() {
                            assert(w1.index[i] == w0.index[i]);
                        }
                    }
                }
                *self = Workflows { statuses, index };
                Submission { workflow_id, existing: false }
            },
        }
    }

    /// Submits `request`. A request already in progress is answered with its workflow at once;
    /// otherwise a new random workflow identifier is drawn and the clock is read. When the clock
    /// reads earlier than the Unix epoch nothing is submitted and the answer is `None`.
    pub fn submit(&mut self, request: &BridgeRequest) -> (res: Option<Submission>)
        ensures
            match res {
                Some(s) => exists|id: u128, t: Timestamp| (final(self)@, s) == submit_spec(old(self)@, request.key(), id, t),
                None => final(self)@ == old(self)@,
            },
            index_lookup(old(self)@.index, request.key()) matches Some(id) ==> res == Some(
                Submission { workflow_id: id, existing: true },
            ) && final(self)@ == old(self)@,
            match res {
                Some(s) => !s.existing ==> !old(self)@.statuses.contains_key(s.workflow_id)
                    && final(self)@.statuses.dom() == old(self)@.statuses.dom().insert(s.workflow_id)
                    && record_key(final(self)@.statuses[s.workflow_id]) == request.key()
                    && (forall|other: u128| #[trigger] old(self)@.statuses.contains_key(other)
                        ==> final(self)@.statuses[other] == old(self)@.statuses[other]),
                None => true,
            },
            final(self)@.wf(),
    {
        proof { use_type_invariant(&*self); }
        let key = RequestKey::from(request);
        if let Some(existing) = self.lookup(&key) {
            let ghost t = Timestamp { seconds: 0, nanos: 0 };
            assert((self@, Submission { workflow_id: existing, existing: true }) == submit_spec(self@, request.key(), existing, t));
            return Some(Submission { workflow_id: existing, existing: true });
        }
        // A random identifier is drawn again, a few times at most, while it is already taken.
        let mut id = new_workflow_id();
        let mut draws: u8 = 1;
        while draws < 8 && self.workflow(id).is_some()
            decreases 8 - draws,
        {
            id = new_workflow_id();
            draws = draws + 1;
        }
        if self.workflow(id).is_some() {
            return None;
        }
        proof { law_new_submission_adds_own_record(self@, request.key(), id, Timestamp { seconds: 0, nanos: 0 }); }
        match now() {
            Some(t) => Some(self.submit_at(request, id, t)),
            None => None,
        }
    }

    /// Forgets that the request `key` is in progress, so that a later identical request starts
    /// a new workflow. The records stay.
    pub fn release(&mut self, key: &RequestKey)
        ensures
            final(self)@ == old(self)@.release(key@),
            final(self)@.wf(),
    {
        let ghost w0 = self@;
        let (statuses, index) = self.take_contents();
        let mut kept: Vec<IndexEntry> = Vec::new();
        let mut i: usize = 0;
        while i < index.len()
            invariant
                contents_view(statuses, index) == w0,
                i <= index.len(),
                kept@.map_values(|e: IndexEntry| entry_view(e)) == index_without(w0.index.take(i as int), key@),
            decreases index.len() - i,
        {
            let e = &index[i];
            assert(w0.index.take(i + 1).drop_last() =~= w0.index.take(i as int));
            assert(w0.index[i as int] == entry_view(index@[i as int]));
            if !e.key.same_as(key) {
                let copy = IndexEntry { key: e.key.duplicate(), workflow_id: e.workflow_id };
                let ghost before = kept@.map_values(|e: IndexEntry| entry_view(e));
                kept.push(copy);
                assert(kept@.map_values(|e: IndexEntry| entry_view(e)) =~= before.push(entry_view(copy)));
            }
            i = i + 1;
        }
        assert(w0.index.take(i as int) =~= w0.index);
        proof {
            lemma_without(w0.index, key@);
            let wi = index_without(w0.index, key@);
            let w1 = contents_view(statuses, kept);
            assert(w1.statuses == w0.statuses);
            assert(w1.index == wi);
            assert forall|i: int| 0 <= i < wi.len() implies w1.statuses.contains_key(#[trigger] wi[i].1) by {
                assert(w0.index.contains(wi[i]));
                let j = choose|j: int| 0 <= j < w0.index.len() && w0.index[j] == wi[i];
                assert(w0.statuses.contains_key(w0.index[j].1));
            }
        }
        *self = Workflows { statuses, index: kept };
    }

    /// Moves workflow `workflow_id` to `stage`; it is then running.
    pub fn set_stage(&mut self, workflow_id: u128, stage: WorkflowStage, now: Timestamp)
        ensures
            final(self)@ == old(self)@.update(workflow_id, |s: StatusView| with_stage(s, stage, now)),
            final(self)@.wf(),
    {
        let ghost w0 = self@;
        let (mut statuses, index) = self.take_contents();
        if let Some(mut status) = statuses.remove(&workflow_id) {
            status.state = WorkflowState::Running;
            status.stage = stage;
            status.updated_at = now;
            statuses.insert(workflow_id, status);
            assert(contents_view(statuses, index).statuses
                =~= w0.update(workflow_id, |s: StatusView| with_stage(s, stage, now)).statuses);
        } else {
            assert(contents_view(statuses, index).statuses =~= w0.statuses);
        }
        *self = Workflows { statuses, index };
    }

    /// Records the Amatsukaze queue item of workflow `workflow_id`.
    pub fn set_queue_item_id(&mut self, workflow_id: u128, queue_item_id: i64, now: Timestamp)
        ensures
            final(self)@ == old(self)@.update(workflow_id, |s: StatusView| with_queue_item(s, queue_item_id, now)),
            final(self)@.wf(),
    {
        let ghost w0 = self@;
        let (mut statuses, index) = self.take_contents();
        if let Some(mut status) = statuses.remove(&workflow_id) {
            status.queue_item_id = Some(queue_item_id);
            status.updated_at = now;
            statuses.insert(workflow_id, status);
            assert(contents_view(statuses, index).statuses
                =~= w0.update(workflow_id, |s: StatusView| with_queue_item(s, queue_item_id, now)).statuses);
        } else {
            assert(contents_view(statuses, index).statuses =~= w0.statuses);
        }
        *self = Workflows { statuses, index };
    }

    /// Records the name of the encoded output of workflow `workflow_id`.
    pub fn set_output(&mut self, workflow_id: u128, filename: &str, now: Timestamp)
        ensures
            final(self)@ == old(self)@.update(workflow_id, |s: StatusView| with_output(s, filename@, now)),
            final(self)@.wf(),
    {
        let ghost w0 = self@;
        let (mut statuses, index) = self.take_contents();
        if let Some(mut status) = statuses.remove(&workflow_id) {
            status.output_filename = Some(filename.to_owned());
            status.updated_at = now;
            statuses.insert(workflow_id, status);
            assert(contents_view(statuses, index).statuses
                =~= w0.update(workflow_id, |s: StatusView| with_output(s, filename@, now)).statuses);
        } else {
            assert(contents_view(statuses, index).statuses =~= w0.statuses);
        }
        *self = Workflows { statuses, index };
    }

    /// Marks workflow `workflow_id` as completed successfully.
    pub fn mark_succeeded(&mut self, workflow_id: u128, now: Timestamp)
        ensures
            final(self)@ == old(self)@.update(workflow_id, |s: StatusView| succeeded(s, now)),
            final(self)@.wf(),
    {
        let ghost w0 = self@;
        let (mut statuses, index) = self.take_contents();
        if let Some(mut status) = statuses.remove(&workflow_id) {
            status.state = WorkflowState::Succeeded;
            status.stage = WorkflowStage::Completed;
            status.updated_at = now;
            statuses.insert(workflow_id, status);
            assert(contents_view(statuses, index).statuses =~= w0.update(workflow_id, |s: StatusView| succeeded(s, now)).statuses);
        } else {
            assert(contents_view(statuses, index).statuses =~= w0.statuses);
        }
        *self = Workflows { statuses, index };
    }

    /// Marks workflow `workflow_id` as failed with `message`, and answers the stage it failed
    /// at and its Amatsukaze queue item, if the workflow is known.
    pub fn mark_failed(&mut self, workflow_id: u128, message: String, now: Timestamp) -> (res: (Option<WorkflowStage>, Option<i64>))
        ensures
            final(self)@ == old(self)@.update(workflow_id, |s: StatusView| failed(s, message@, now)),
            final(self)@.wf(),
            res == if old(self)@.statuses.contains_key(workflow_id) {
                (Some(old(self)@.statuses[workflow_id].stage), old(self)@.statuses[workflow_id].queue_item_id)
            } else {
                (None, None)
            },
    {
        let ghost w0 = self@;
        let ghost m = message@;
        let (mut statuses, index) = self.take_contents();
        let res = if let Some(mut status) = statuses.remove(&workflow_id) {
            let failed_at = status.stage;
            let queue_item_id = status.queue_item_id;
            status.state = WorkflowState::Failed;
            status.stage = WorkflowStage::Failed;
            status.failed_at = Some(failed_at);
            status.error = Some(message);
            status.updated_at = now;
            statuses.insert(workflow_id, status);
            assert(contents_view(statuses, index).statuses =~= w0.update(workflow_id, |s: StatusView| failed(s, m, now)).statuses);
            (Some(failed_at), queue_item_id)
        } else {
            assert(contents_view(statuses, index).statuses =~= w0.statuses);
            (None, None)
        };
        *self = Workflows { statuses, index };
        res
    }
}

} // verus!
