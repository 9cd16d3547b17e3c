//! The task registry: the table that correlates request identifiers with
//! running and finished tasks.
//!
//! The registry never talks to the backend. A task is `Running` from the
//! moment it is registered until `complete` records its outcome, and it
//! leaves the table the moment `collect` hands that outcome out.
use vstd::prelude::*;
use crate::message::{ErrorKind, Outcome, OutcomeView};

verus! {

/// The state of one task, as the contracts see it.
pub enum TaskStateView {
    Running,
    Completed(OutcomeView),
}

/// One task record, as the contracts see it.
pub struct RecordView {
    pub state: TaskStateView,
    pub submitted_at: u64,
}

/// What `poll` found.
#[derive(Clone, Debug, PartialEq, Eq)]
pub enum PollResult {
    NotFound,
    Running,
    Completed(Outcome),
}

pub enum PollView {
    NotFound,
    Running,
    Completed(OutcomeView),
}

impl View for PollResult {
    type V = PollView;

    open spec fn view(&self) -> PollView {
        match self {
            PollResult::NotFound => PollView::NotFound,
            PollResult::Running => PollView::Running,
            PollResult::Completed(o) => PollView::Completed(o@),
        }
    }
}

/// What `collect` took out.
#[derive(Clone, Debug, PartialEq, Eq)]
pub enum CollectResult {
    NotFound,
    Completed(Outcome),
}

pub enum CollectView {
    NotFound,
    Completed(OutcomeView),
}

impl View for CollectResult {
    type V = CollectView;

    open spec fn view(&self) -> CollectView {
        match self {
            CollectResult::NotFound => CollectView::NotFound,
            CollectResult::Completed(o) => CollectView::Completed(o@),
        }
    }
}

/// The diagnostic stored with a task that outlived its deadline.
pub open spec fn timeout_message() -> Seq<char> {
    "task exceeded its deadline"@
}

/// `id` names a task that is still running.
pub open spec fn is_running(m: Map<Seq<char>, RecordView>, id: Seq<char>) -> bool {
    m.contains_key(id) && m[id].state is Running
}

/// `id` names a task that has finished and was not collected yet.
pub open spec fn is_completed(m: Map<Seq<char>, RecordView>, id: Seq<char>) -> bool {
    m.contains_key(id) && m[id].state is Completed
}

/// A fresh record: running, submitted at `now`.
pub open spec fn running_record(now: u64) -> RecordView {
    RecordView { state: TaskStateView::Running, submitted_at: now }
}

/// The table after `register`: unchanged where `id` is running, else with a
/// fresh running record under `id`.
pub open spec fn spec_register(m: Map<Seq<char>, RecordView>, id: Seq<char>, now: u64) -> Map<
    Seq<char>,
    RecordView,
> {
    if is_running(m, id) {
        m
    } else {
        m.insert(id, running_record(now))
    }
}

/// What `poll` answers.
pub open spec fn spec_poll(m: Map<Seq<char>, RecordView>, id: Seq<char>) -> PollView {
    if !m.contains_key(id) {
        PollView::NotFound
    } else {
        match m[id].state {
            TaskStateView::Running => PollView::Running,
            TaskStateView::Completed(o) => PollView::Completed(o),
        }
    }
}

/// What `collect` answers.
pub open spec fn spec_collect_result(m: Map<Seq<char>, RecordView>, id: Seq<char>) -> CollectView {
    if !m.contains_key(id) {
        CollectView::NotFound
    } else {
        match m[id].state {
            TaskStateView::Running => CollectView::NotFound,
            TaskStateView::Completed(o) => CollectView::Completed(o),
        }
    }
}

/// The table after `collect`: a finished record leaves, anything else stays.
pub open spec fn spec_collect(m: Map<Seq<char>, RecordView>, id: Seq<char>) -> Map<
    Seq<char>,
    RecordView,
> {
    if is_completed(m, id) {
        m.remove(id)
    } else {
        m
    }
}

/// The table after `complete`: a running record takes the outcome and keeps
/// its submission time; anything else stays.
pub open spec fn spec_complete(m: Map<Seq<char>, RecordView>, id: Seq<char>, o: OutcomeView) -> Map<
    Seq<char>,
    RecordView,
> {
    if is_running(m, id) {
        m.insert(
            id,
            RecordView { state: TaskStateView::Completed(o), submitted_at: m[id].submitted_at },
        )
    } else {
        m
    }
}

/// How long ago `then` was, seen from `now`; zero where the clock ran back.
pub open spec fn age(now: u64, then: u64) -> int {
    if now >= then {
        now - then
    } else {
        0
    }
}

/// A finished record that has waited longer than `max_age` to be collected.
pub open spec fn evictable(r: RecordView, now: u64, max_age: u64) -> bool {
    r.state is Completed && age(now, r.submitted_at) > max_age
}

/// The table after `sweep`: the evictable records are gone.
pub open spec fn spec_sweep(m: Map<Seq<char>, RecordView>, now: u64, max_age: u64) -> Map<
    Seq<char>,
    RecordView,
> {
    Map::new(|k: Seq<char>| m.contains_key(k) && !evictable(m[k], now, max_age), |k: Seq<char>| m[k])
}

/// A running record that has run longer than `deadline`.
pub open spec fn overdue(r: RecordView, now: u64, deadline: u64) -> bool {
    r.state is Running && age(now, r.submitted_at) > deadline
}

/// A record after `expire`.
pub open spec fn expired_record(r: RecordView, now: u64, deadline: u64) -> RecordView {
    if overdue(r, now, deadline) {
        RecordView {
            state: TaskStateView::Completed(
                OutcomeView::Failure(ErrorKind::Timeout, timeout_message()),
            ),
            submitted_at: r.submitted_at,
        }
    } else {
        r
    }
}

/// The table after `expire`: every overdue record has failed with `Timeout`.
pub open spec fn spec_expire(m: Map<Seq<char>, RecordView>, now: u64, deadline: u64) -> Map<
    Seq<char>,
    RecordView,
> {
    Map::new(|k: Seq<char>| m.contains_key(k), |k: Seq<char>| expired_record(m[k], now, deadline))
}

#[derive(Debug)]
enum TaskState {
    Running,
    Completed(Outcome),
}

#[derive(Debug)]
struct TaskRecord {
    id: String,
    state: TaskState,
    submitted_at: u64,
}

impl TaskRecord {
    spec fn view(&self) -> RecordView {
        RecordView {
            state: match self.state {
                TaskState::Running => TaskStateView::Running,
                TaskState::Completed(o) => TaskStateView::Completed(o@),
            },
            submitted_at: self.submitted_at,
        }
    }
}

spec fn ids_distinct(recs: Seq<TaskRecord>) -> bool {
    forall|i: int, j: int|
        0 <= i < j < recs.len() ==> (#[trigger] recs[i]).id@ != (#[trigger] recs[j]).id@
}

spec fn has_id(recs: Seq<TaskRecord>, id: Seq<char>) -> bool {
    exists|i: int| 0 <= i < recs.len() && (#[trigger] recs[i]).id@ == id
}

spec fn key_index(recs: Seq<TaskRecord>, id: Seq<char>) -> int {
    choose|i: int| 0 <= i < recs.len() && (#[trigger] recs[i]).id@ == id
}

spec fn records_map(recs: Seq<TaskRecord>) -> Map<Seq<char>, RecordView> {
    Map::new(|k: Seq<char>| has_id(recs, k), |k: Seq<char>| recs[key_index(recs, k)]@)
}

proof fn lemma_lookup(recs: Seq<TaskRecord>, i: int)
    requires
        ids_distinct(recs),
        0 <= i < recs.len(),
    ensures
        records_map(recs).contains_key(recs[i].id@),
        records_map(recs)[recs[i].id@] == recs[i]@,
{
    let id = recs[i].id@;
    assert(has_id(recs, id));
    let j = key_index(recs, id);
    assert(0 <= j < recs.len() && recs[j].id@ == id);
    if j < i {
        assert(recs[j].id@ != recs[i].id@);
    }
    if i < j {
        assert(recs[i].id@ != recs[j].id@);
    }
}

proof fn lemma_absent(recs: Seq<TaskRecord>, id: Seq<char>)
    requires
        forall|j: int| 0 <= j < recs.len() ==> (#[trigger] recs[j]).id@ != id,
    ensures
        !records_map(recs).contains_key(id),
{
}

proof fn lemma_push(recs: Seq<TaskRecord>, r: TaskRecord)
    requires
        ids_distinct(recs),
        !has_id(recs, r.id@),
    ensures
        ids_distinct(recs.push(r)),
        records_map(recs.push(r)) == records_map(recs).insert(r.id@, r@),
{
    let recs2 = recs.push(r);
    assert forall|i: int, j: int| 0 <= i < j < recs2.len() implies (#[trigger] recs2[i]).id@
        != (#[trigger] recs2[j]).id@ by {
        if j == recs.len() {
            assert(recs2[i] == recs[i]);
        } else {
            assert(recs2[i] == recs[i] && recs2[j] == recs[j]);
        }
    }
    let m2 = records_map(recs2);
    let m1 = records_map(recs).insert(r.id@, r@);
    assert forall|k: Seq<char>| m2.contains_key(k) <==> m1.contains_key(k) by {
        if has_id(recs2, k) {
            let j = key_index(recs2, k);
            if j < recs.len() {
                assert(recs[j] == recs2[j]);
            }
        }
        if has_id(recs, k) {
            let j = key_index(recs, k);
            assert(recs2[j] == recs[j]);
        }
        if k == r.id@ {
            assert(recs2[recs.len() as int] == r);
        }
    }
    assert forall|k: Seq<char>| m2.contains_key(k) implies m2[k] == m1[k] by {
        if k == r.id@ {
            assert(recs2[recs.len() as int] == r);
            lemma_lookup(recs2, recs.len() as int);
        } else {
            let j = key_index(recs, k);
            assert(recs2[j] == recs[j]);
            lemma_lookup(recs2, j);
        }
    }
    assert(m2 =~= m1);
}

proof fn lemma_update(recs: Seq<TaskRecord>, i: int, r: TaskRecord)
    requires
        ids_distinct(recs),
        0 <= i < recs.len(),
        r.id@ == recs[i].id@,
    ensures
        ids_distinct(recs.update(i, r)),
        records_map(recs.update(i, r)) == records_map(recs).insert(r.id@, r@),
{
    let recs2 = recs.update(i, r);
    assert forall|a: int, b: int| 0 <= a < b < recs2.len() implies (#[trigger] recs2[a]).id@
        != (#[trigger] recs2[b]).id@ by {
        assert(recs2[a].id@ == recs[a].id@);
        assert(recs2[b].id@ == recs[b].id@);
    }
    let m2 = records_map(recs2);
    let m1 = records_map(recs).insert(r.id@, r@);
    assert forall|k: Seq<char>| m2.contains_key(k) <==> m1.contains_key(k) by {
        if has_id(recs2, k) {
            let j = key_index(recs2, k);
            assert(recs2[j].id@ == recs[j].id@);
        }
        if has_id(recs, k) {
            let j = key_index(recs, k);
            assert(recs2[j].id@ == recs[j].id@);
        }
        if k == r.id@ {
            assert(recs2[i] == r);
        }
    }
    assert forall|k: Seq<char>| m2.contains_key(k) implies m2[k] == m1[k] by {
        if k == r.id@ {
            assert(recs2[i] == r);
            lemma_lookup(recs2, i);
        } else {
            let j = key_index(recs, k);
            assert(j != i);
            assert(recs2[j] == recs[j]);
            lemma_lookup(recs2, j);
        }
    }
    assert(m2 =~= m1);
}

proof fn lemma_remove(recs: Seq<TaskRecord>, i: int)
    requires
        ids_distinct(recs),
        0 <= i < recs.len(),
    ensures
        ids_distinct(recs.remove(i)),
        records_map(recs.remove(i)) == records_map(recs).remove(recs[i].id@),
{
    let recs2 = recs.remove(i);
    assert forall|a: int, b: int| 0 <= a < b < recs2.len() implies (#[trigger] recs2[a]).id@
        != (#[trigger] recs2[b]).id@ by {
        let a1 = if a < i { a } else { a + 1 };
        let b1 = if b < i { b } else { b + 1 };
        assert(recs2[a] == recs[a1] && recs2[b] == recs[b1]);
    }
    let m2 = records_map(recs2);
    let m1 = records_map(recs).remove(recs[i].id@);
    assert forall|k: Seq<char>| m2.contains_key(k) <==> m1.contains_key(k) by {
        if has_id(recs2, k) {
            let a = key_index(recs2, k);
            let a1 = if a < i { a } else { a + 1 };
            assert(recs2[a] == recs[a1]);
            if a1 < i {
                assert(recs[a1].id@ != recs[i].id@);
            } else {
                assert(recs[i].id@ != recs[a1].id@);
            }
        }
        if has_id(recs, k) && k != recs[i].id@ {
            let j = key_index(recs, k);
            let j2 = if j < i { j } else { j - 1 };
            assert(recs2[j2] == recs[j]);
        }
    }
    assert forall|k: Seq<char>| m2.contains_key(k) implies m2[k] == m1[k] by {
        let j = key_index(recs, k);
        let j2 = if j < i { j } else { j - 1 };
        assert(j != i);
        assert(recs2[j2] == recs[j]);
        lemma_lookup(recs2, j2);
    }
    assert(m2 =~= m1);
}

proof fn lemma_count(recs: Seq<TaskRecord>)
    requires
        ids_distinct(recs),
    ensures
        records_map(recs).dom().finite(),
        records_map(recs).dom().len() == recs.len(),
    decreases recs.len(),
{
    if recs.len() == 0 {
        assert(records_map(recs).dom() =~= Set::<Seq<char>>::empty());
    } else {
        let front = recs.drop_last();
        let last = recs.last();
        assert(recs =~= front.push(last));
        assert forall|i: int, j: int| 0 <= i < j < front.len() implies (#[trigger] front[i]).id@
            != (#[trigger] front[j]).id@ by {
            assert(front[i] == recs[i] && front[j] == recs[j]);
        }
        assert forall|j: int| 0 <= j < front.len() implies (#[trigger] front[j]).id@
            != last.id@ by {
            assert(front[j] == recs[j]);
            assert(recs[j].id@ != recs[recs.len() - 1].id@);
        }
        lemma_absent(front, last.id@);
        lemma_count(front);
        lemma_push(front, last);
        assert(records_map(recs).dom() =~= records_map(front).dom().insert(last.id@));
    }
}

/// The table of tasks, keyed by request identifier.
#[derive(Debug)]
pub struct TaskRegistry {
    records: Vec<TaskRecord>,
}

impl View for TaskRegistry {
    type V = Map<Seq<char>, RecordView>;

    /// The records by identifier.
    closed spec fn view(&self) -> Map<Seq<char>, RecordView> {
        records_map(self.records@)
    }
}

fn age_of(now: u64, then: u64) -> (r: u64)
    ensures
        r == age(now, then),
{
    if now >= then {
        now - then
    } else {
        0
    }
}

impl Default for TaskRegistry {
    fn default() -> (r: TaskRegistry)
        ensures
            r.wf(),
            r@ == Map::<Seq<char>, RecordView>::empty(),
    {
        TaskRegistry::new()
    }
}

impl TaskRegistry {
    /// No identifier occurs twice.
    pub closed spec fn wf(&self) -> bool {
        ids_distinct(self.records@)
    }

    /// An empty registry.
    pub fn new() -> (r: TaskRegistry)
        ensures
            r.wf(),
            r@ == Map::<Seq<char>, RecordView>::empty(),
    {
        let r = TaskRegistry { records: Vec::new() };
        assert(r@ =~= Map::<Seq<char>, RecordView>::empty());
        r
    }

    fn find(&self, key: &String) -> (r: Option<usize>)
        requires
            self.wf(),
        ensures
            match r {
                Some(i) => i < self.records@.len() && self.records@[i as int].id@ == key@
                    && self@.contains_key(key@) && self@[key@] == self.records@[i as int]@,
                None => !self@.contains_key(key@),
            },
    {
        let mut i: usize = 0;
        while i < self.records.len()
            invariant
                self.wf(),
                i <= self.records@.len(),
                forall|j: int| 0 <= j < i ==> (#[trigger] self.records@[j]).id@ != key@,
            decreases self.records@.len() - i,
        {
            if self.records[i].id == *key {
                proof {
                    lemma_lookup(self.records@, i as int);
                }
                return Some(i);
            }
            i += 1;
        }
        proof {
            lemma_absent(self.records@, key@);
        }
        None
    }

    /// Whether any record stands under `id`.
    pub fn contains(&self, id: &str) -> (r: bool)
        requires
            self.wf(),
        ensures
            r == self@.contains_key(id@),
    {
        let key = id.to_owned();
        self.find(&key).is_some()
    }

    /// How many records the registry holds, running or finished.
    pub fn len(&self) -> (r: usize)
        requires
            self.wf(),
        ensures
            self@.dom().finite(),
            r == self@.len(),
    {
        proof {
            lemma_count(self.records@);
        }
        self.records.len()
    }

    /// Whether the registry holds no record at all.
    pub fn is_empty(&self) -> (r: bool)
        requires
            self.wf(),
        ensures
            r == (self@ == Map::<Seq<char>, RecordView>::empty()),
    {
        proof {
            if self.records@.len() > 0 {
                lemma_lookup(self.records@, 0);
            } else {
                assert(self@ =~= Map::<Seq<char>, RecordView>::empty());
            }
        }
        self.records.len() == 0
    }

    /// Enters `id` as a running task submitted at `now`. Fails with
    /// `DuplicateId`, and changes nothing, where `id` is running already. A
    /// finished record that nobody collected gives way to the new task.
    pub fn register(&mut self, id: &str, now: u64) -> (r: Result<(), ErrorKind>)
        requires
            old(self).wf(),
        ensures
            final(self).wf(),
            final(self)@ == spec_register(old(self)@, id@, now),
            r is Err <==> is_running(old(self)@, id@),
            r is Err ==> r == Err::<(), ErrorKind>(ErrorKind::DuplicateId),
    {
        let key = id.to_owned();
        match self.find(&key) {
            Some(i) => {
                let running = match &self.records[i].state {
                    TaskState::Running => true,
                    TaskState::Completed(_) => false,
                };
                if running {
                    return Err(ErrorKind::DuplicateId);
                }
                let rec = TaskRecord { id: key, state: TaskState::Running, submitted_at: now };
                proof {
                    lemma_update(self.records@, i as int, rec);
                }
                self.records.set(i, rec);
                Ok(())
            },
            None => {
                let rec = TaskRecord { id: key, state: TaskState::Running, submitted_at: now };
                proof {
                    lemma_push(self.records@, rec);
                }
                self.records.push(rec);
                Ok(())
            },
        }
    }

    /// Looks `id` up and changes nothing.
    pub fn poll(&self, id: &str) -> (r: PollResult)
        requires
            self.wf(),
        ensures
            r@ == spec_poll(self@, id@),
    {
        let key = id.to_owned();
        match self.find(&key) {
            Some(i) => match &self.records[i].state {
                TaskState::Running => PollResult::Running,
                TaskState::Completed(o) => PollResult::Completed(o.duplicate()),
            },
            None => PollResult::NotFound,
        }
    }

    /// Takes the outcome of a finished task out of the registry, in one
    /// step. A running task stays, and the answer is `NotFound`.
    pub fn collect(&mut self, id: &str) -> (r: CollectResult)
        requires
            old(self).wf(),
        ensures
            final(self).wf(),
            r@ == spec_collect_result(old(self)@, id@),
            final(self)@ == spec_collect(old(self)@, id@),
    {
        let key = id.to_owned();
        match self.find(&key) {
            Some(i) => {
                let done = match &self.records[i].state {
                    TaskState::Running => false,
                    TaskState::Completed(_) => true,
                };
                if !done {
                    return CollectResult::NotFound;
                }
                proof {
                    lemma_remove(self.records@, i as int);
                }
                let rec = self.records.remove(i);
                match rec.state {
                    TaskState::Completed(o) => CollectResult::Completed(o),
                    TaskState::Running => CollectResult::NotFound,
                }
            },
            None => CollectResult::NotFound,
        }
    }

    /// Records the outcome of the running task `id`. Answers whether it did:
    /// an unknown identifier or a task that has finished already is left as
    /// it is.
    pub fn complete(&mut self, id: &str, outcome: Outcome) -> (r: bool)
        requires
            old(self).wf(),
        ensures
            final(self).wf(),
            r == is_running(old(self)@, id@),
            final(self)@ == spec_complete(old(self)@, id@, outcome@),
    {
        let key = id.to_owned();
        match self.find(&key) {
            Some(i) => {
                let running = match &self.records[i].state {
                    TaskState::Running => true,
                    TaskState::Completed(_) => false,
                };
                if !running {
                    return false;
                }
                let rec = TaskRecord {
                    id: key,
                    state: TaskState::Completed(outcome),
                    submitted_at: self.records[i].submitted_at,
                };
                proof {
                    lemma_update(self.records@, i as int, rec);
                }
                self.records.set(i, rec);
                true
            },
            None => false,
        }
    }

    /// Evicts every finished record that has waited longer than `max_age`
    /// since its submission. Eviction is lossy: the outcome of an evicted
    /// task is gone, and a later query for it finds nothing.
    pub fn sweep(&mut self, now: u64, max_age: u64)
        requires
            old(self).wf(),
        ensures
            final(self).wf(),
            final(self)@ == spec_sweep(old(self)@, now, max_age),
    {
        let ghost m0 = self@;
        let mut i: usize = 0;
        while i < self.records.len()
            invariant
                self.wf(),
                i <= self.records@.len(),
                forall|k: Seq<char>| #[trigger]
                    self@.contains_key(k) ==> m0.contains_key(k) && m0[k] == self@[k],
                forall|k: Seq<char>|
                    #[trigger] m0.contains_key(k) && !evictable(m0[k], now, max_age)
                        ==> self@.contains_key(k),
                forall|j: int|
                    0 <= j < i ==> !evictable((#[trigger] self.records@[j])@, now, max_age),
            decreases self.records@.len() - i,
        {
            let done = match &self.records[i].state {
                TaskState::Running => false,
                TaskState::Completed(_) => true,
            };
            if done && age_of(now, self.records[i].submitted_at) > max_age {
                let ghost before = self@;
                let ghost gone = self.records@[i as int].id@;
                proof {
                    lemma_lookup(self.records@, i as int);
                    lemma_remove(self.records@, i as int);
                }
                self.records.remove(i);
                proof {
                    assert(self@ == before.remove(gone));
                    assert forall|k: Seq<char>| #[trigger]
                        self@.contains_key(k) implies m0.contains_key(k) && m0[k] == self@[k] by {
                        assert(before.contains_key(k));
                    }
                }
            } else {
                i += 1;
            }
        }
        proof {
            let m1 = self@;
            assert forall|k: Seq<char>| m1.contains_key(k) implies !evictable(
                m0[k],
                now,
                max_age,
            ) by {
                let j = key_index(self.records@, k);
                lemma_lookup(self.records@, j);
            }
            assert(m1 =~= spec_sweep(m0, now, max_age));
        }
    }

    /// Fails every running task that has run longer than `deadline` since
    /// its submission: it becomes a finished record whose outcome is a
    /// `Timeout` failure, to be collected like any other.
    pub fn expire(&mut self, now: u64, deadline: u64)
        requires
            old(self).wf(),
        ensures
            final(self).wf(),
            final(self)@ == spec_expire(old(self)@, now, deadline),
    {
        let ghost recs0 = self.records@;
        let mut i: usize = 0;
        while i < self.records.len()
            invariant
                ids_distinct(recs0),
                self.records@.len() == recs0.len(),
                i <= self.records@.len(),
                forall|j: int|
                    0 <= j < recs0.len() ==> (#[trigger] self.records@[j]).id@ == recs0[j].id@,
                forall|j: int|
                    0 <= j < i ==> (#[trigger] self.records@[j])@ == expired_record(
                        recs0[j]@,
                        now,
                        deadline,
                    ),
                forall|j: int| i <= j < recs0.len() ==> (#[trigger] self.records@[j])@ == recs0[j]@,
            decreases self.records@.len() - i,
        {
            let running = match &self.records[i].state {
                TaskState::Running => true,
                TaskState::Completed(_) => false,
            };
            if running && age_of(now, self.records[i].submitted_at) > deadline {
                let rec = TaskRecord {
                    id: self.records[i].id.clone(),
                    state: TaskState::Completed(
                        Outcome::Failure(
                            ErrorKind::Timeout,
                            String::from_str("task exceeded its deadline"),
                        ),
                    ),
                    submitted_at: self.records[i].submitted_at,
                };
                self.records.set(i, rec);
            }
            i += 1;
        }
        proof {
            let recs1 = self.records@;
            assert forall|a: int, b: int| 0 <= a < b < recs1.len() implies (#[trigger] recs1[a]).id@
                != (#[trigger] recs1[b]).id@ by {
                assert(recs0[a].id@ != recs0[b].id@);
            }
            let m0 = records_map(recs0);
            let m1 = records_map(recs1);
            let want = spec_expire(m0, now, deadline);
            assert forall|k: Seq<char>| m1.contains_key(k) <==> want.contains_key(k) by {
                if has_id(recs1, k) {
                    let j = key_index(recs1, k);
                    assert(recs0[j].id@ == recs1[j].id@);
                }
                if has_id(recs0, k) {
                    let j = key_index(recs0, k);
                    assert(recs1[j].id@ == recs0[j].id@);
                }
            }
            assert forall|k: Seq<char>| m1.contains_key(k) implies m1[k] == want[k] by {
                let j = key_index(recs1, k);
                assert(recs0[j].id@ == recs1[j].id@);
                lemma_lookup(recs0, j);
                lemma_lookup(recs1, j);
            }
            assert(m1 =~= want);
        }
    }
}

} // verus!
