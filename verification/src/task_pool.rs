//! The task pool: the rows of the `tasks` and `worker_infos` tables and the
//! operations that submit, read, claim and settle tasks and register workers.
use crate::identity::{
    is_random_uuid, now_timestamp, parse_uuid, random_uuid, uuid_hyphenated, uuid_parsed, uuid_text,
};
use crate::models::{NewTask, NewTaskView, Task, TaskView, WorkerInfo, WorkerInfoView, task_row};
use crate::status::{status_of_code, TaskStatus, ERROR_CODE, INIT_CODE};
use vstd::prelude::*;
use vstd::string::*;

verus! {

/// Why an operation on the pool was refused.
#[derive(Debug, Clone, Copy, PartialEq, Eq, Structural)]
pub enum PoolError {
    /// No task has the requested id.
    NotFound,
    /// The table holds the largest id there is, so no new id can be given.
    Full,
}

/// The two tables of the pool, each as its rows in order of id.
pub struct PoolView {
    pub tasks: Seq<TaskView>,
    pub workers: Seq<WorkerInfoView>,
}

/// Ids grow strictly from each task row to the next.
pub open spec fn task_ids_increasing(s: Seq<TaskView>) -> bool {
    forall|i: int, j: int| 0 <= i < j < s.len() ==> s[i].id < s[j].id
}

/// Ids grow strictly from each worker row to the next.
pub open spec fn worker_ids_increasing(s: Seq<WorkerInfoView>) -> bool {
    forall|i: int, j: int| 0 <= i < j < s.len() ==> s[i].id < s[j].id
}

/// The id that a table gives its next row: one past its largest id, 1 for
/// an empty table, none once the largest id is `i64::MAX`.
pub open spec fn next_id(count: nat, largest: i64) -> Option<i64> {
    if count == 0 {
        Some(1)
    } else if largest == i64::MAX {
        None
    } else {
        Some((largest + 1) as i64)
    }
}

/// Whether a task row waits for a worker.
pub open spec fn is_todo(t: TaskView) -> bool {
    t.status == INIT_CODE
}

/// `is_todo` as a predicate on rows.
pub open spec fn todo_pred() -> spec_fn(TaskView) -> bool {
    |t: TaskView| is_todo(t)
}

/// The submission that `add` makes: the miner address loses its first
/// character (the network prefix); the task is of type 0 and waits in `Init`.
pub open spec fn submission(
    miner: Seq<char>,
    worker_id: Seq<char>,
    prove_id: Seq<char>,
    sector_id: i64,
    phase1_output: Seq<char>,
    now: i64,
) -> NewTaskView {
    NewTaskView {
        miner: miner.skip(1),
        prove_id: prove_id,
        sector_id: sector_id,
        phase1_output: phase1_output,
        worker_id: worker_id,
        task_type: 0,
        status: INIT_CODE,
        create_at: now,
    }
}

impl PoolView {
    /// Both tables hold their rows in strictly increasing order of id.
    pub open spec fn wf(self) -> bool {
        &&& task_ids_increasing(self.tasks)
        &&& worker_ids_increasing(self.workers)
    }

    pub open spec fn has_task(self, id: i64) -> bool {
        exists|i: int| 0 <= i < self.tasks.len() && self.tasks[i].id == id
    }

    /// The task row with `id`, if there is one.
    pub open spec fn task(self, id: i64) -> Option<TaskView> {
        if self.has_task(id) {
            Some(self.tasks[choose|i: int| 0 <= i < self.tasks.len() && self.tasks[i].id == id])
        } else {
            None
        }
    }

    pub open spec fn next_task_id(self) -> Option<i64> {
        next_id(self.tasks.len(), if self.tasks.len() > 0 { self.tasks.last().id } else { 0 })
    }

    pub open spec fn next_worker_id(self) -> Option<i64> {
        next_id(self.workers.len(), if self.workers.len() > 0 { self.workers.last().id } else { 0 })
    }

    /// The pool after inserting a submission, or why it is refused.
    pub open spec fn insert(self, n: NewTaskView) -> Result<PoolView, PoolError> {
        match self.next_task_id() {
            Some(id) => Ok(PoolView { tasks: self.tasks.push(task_row(n, id)), workers: self.workers }),
            None => Err(PoolError::Full),
        }
    }

    /// The pool after every task row with `id` is set to `Error` with `msg`.
    pub open spec fn with_error(self, id: i64, msg: Seq<char>) -> PoolView {
        PoolView {
            tasks: self.tasks.map_values(
                |t: TaskView|
                    if t.id == id {
                        TaskView { status: ERROR_CODE, error_msg: msg, ..t }
                    } else {
                        t
                    },
            ),
            workers: self.workers,
        }
    }

    /// The pool after every task row with `id` gets `proof` and is set to
    /// the `Error` state.
    pub open spec fn with_proof(self, id: i64, proof: Seq<char>) -> PoolView {
        PoolView {
            tasks: self.tasks.map_values(
                |t: TaskView|
                    if t.id == id {
                        TaskView { status: ERROR_CODE, proof: proof, ..t }
                    } else {
                        t
                    },
            ),
            workers: self.workers,
        }
    }

    /// The tasks that wait for a worker, in order of id.
    pub open spec fn undo(self) -> Seq<TaskView> {
        self.tasks.filter(todo_pred())
    }

    pub open spec fn has_todo(self) -> bool {
        exists|i: int| 0 <= i < self.tasks.len() && is_todo(self.tasks[i])
    }

    pub open spec fn is_first_todo(self, i: int) -> bool {
        &&& 0 <= i < self.tasks.len()
        &&& is_todo(self.tasks[i])
        &&& forall|k: int| 0 <= k < i ==> !is_todo(#[trigger] self.tasks[k])
    }

    /// The position of the first task that waits for a worker.
    pub open spec fn first_todo(self) -> int {
        choose|i: int| self.is_first_todo(i)
    }

    /// The pool after the first waiting task is handed out at time `now`:
    /// its row stays in `Init` and gets `start_at` set to `now`.
    pub open spec fn claim(self, now: i64) -> PoolView {
        let i: int = self.first_todo();
        PoolView {
            tasks: self.tasks.update(i, TaskView { status: INIT_CODE, start_at: now, ..self.tasks[i] }),
            workers: self.workers,
        }
    }

    /// The pool after a worker registers under the identity `text`.
    pub open spec fn register_worker(self, text: Seq<char>) -> PoolView {
        PoolView {
            tasks: self.tasks,
            workers: self.workers.push(WorkerInfoView { id: self.next_worker_id().unwrap(), worker_id: text }),
        }
    }

    /// The identity stored in the first worker row, if it reads as a UUID.
    pub open spec fn stored_worker_id(self) -> Option<u128> {
        if self.workers.len() > 0 {
            uuid_parsed(self.workers[0].worker_id)
        } else {
            None
        }
    }

    /// What asking for the worker identity does: with a worker stored, it
    /// returns the stored identity `r` and changes nothing; with none, it
    /// registers `r` as the first worker, which then reads back as `r`.
    pub open spec fn worker_id_step(self, r: u128, q: PoolView) -> bool {
        if self.workers.len() > 0 {
            self.stored_worker_id() == Some(r) && q == self
        } else {
            q == self.register_worker(uuid_hyphenated(r)) && q.stored_worker_id() == Some(r)
        }
    }

    /// In a well-formed pool, no row other than the one at `i` has its id.
    pub proof fn lemma_only_row_with_id(self, i: int)
        requires
            self.wf(),
            0 <= i < self.tasks.len(),
        ensures
            forall|k: int| 0 <= k < self.tasks.len() && k != i ==> self.tasks[k].id != self.tasks[i].id,
    {
        assert forall|k: int| 0 <= k < self.tasks.len() && k != i implies self.tasks[k].id
            != self.tasks[i].id by {
            if k < i {
                assert(self.tasks[k].id < self.tasks[i].id);
            } else {
                assert(self.tasks[i].id < self.tasks[k].id);
            }
        }
    }

    /// In a well-formed pool, the row at position `i` is the task with its id.
    pub proof fn lemma_task_at(self, i: int)
        requires
            self.wf(),
            0 <= i < self.tasks.len(),
        ensures
            self.task(self.tasks[i].id) == Some(self.tasks[i]),
    {
        let id: i64 = self.tasks[i].id;
        assert(self.has_task(id));
        let j: int = choose|j: int| 0 <= j < self.tasks.len() && self.tasks[j].id == id;
        if j < i {
            assert(self.tasks[j].id < self.tasks[i].id);
        } else if i < j {
            assert(self.tasks[i].id < self.tasks[j].id);
        }
    }

    /// Below any waiting task there is a first waiting task.
    proof fn lemma_first_todo_below(self, w: int)
        requires
            0 <= w < self.tasks.len(),
            is_todo(self.tasks[w]),
        ensures
            exists|i: int| self.is_first_todo(i),
        decreases w,
    {
        if exists|k: int| 0 <= k < w && is_todo(#[trigger] self.tasks[k]) {
            let k: int = choose|k: int| 0 <= k < w && is_todo(#[trigger] self.tasks[k]);
            self.lemma_first_todo_below(k);
        } else {
            assert(self.is_first_todo(w));
        }
    }

    /// Where a task waits, `first_todo` is the position of the first one.
    pub proof fn lemma_first_todo(self)
        requires
            self.has_todo(),
        ensures
            self.is_first_todo(self.first_todo()),
    {
        let w: int = choose|i: int| 0 <= i < self.tasks.len() && is_todo(self.tasks[i]);
        self.lemma_first_todo_below(w);
    }
}

/// The rows of both tables, kept in strictly increasing order of id.
pub struct TaskpoolImpl {
    tasks: Vec<Task>,
    workers: Vec<WorkerInfo>,
}

/// The view of a vector of task rows.
pub open spec fn task_rows(v: Seq<Task>) -> Seq<TaskView> {
    v.map_values(|t: Task| t@)
}

/// The view of a vector of worker rows.
pub open spec fn worker_rows(v: Seq<WorkerInfo>) -> Seq<WorkerInfoView> {
    v.map_values(|w: WorkerInfo| w@)
}

impl View for TaskpoolImpl {
    type V = PoolView;

    closed spec fn view(&self) -> PoolView {
        PoolView { tasks: task_rows(self.tasks@), workers: worker_rows(self.workers@) }
    }
}

#[verifier::external_type_specification]
#[verifier::external_body]
pub struct ExAddress(forest_address::Address);

/// The text of a Filecoin address: a network prefix, `f` or `t`, then at
/// least the protocol digit.
pub open spec fn is_address_text(s: Seq<char>) -> bool {
    &&& s.len() >= 2
    &&& (s[0] == 'f' || s[0] == 't')
}

/// The text that `forest_address::Address`'s `Display` writes for `a`.
pub uninterp spec fn address_string(a: forest_address::Address) -> Seq<char>;

/// Calls `ToString::to_string` on a `forest_address::Address`, that is its
/// `Display`. Claimed: the result is `address_string` of the address, and it
/// starts with the network prefix (`f` or `t`) followed by at least the
/// protocol digit.
#[verifier::external_body]
fn address_text(a: &forest_address::Address) -> (s: String)
    ensures
        s@ == address_string(*a),
        is_address_text(s@),
{
    a.to_string()
}

/// The submission that `add` inserts: the miner address without its first
/// character, the other columns as given, type 0, state `Init`, created at
/// `now`.
pub fn new_task(
    miner: &str,
    worker_id: String,
    prove_id: String,
    sector_id: i64,
    phase1_output: String,
    now: i64,
) -> (n: NewTask)
    requires
        miner@.len() >= 1,
        (miner@[0] as int) < 128,
    ensures
        n@ == submission(miner@, worker_id@, prove_id@, sector_id, phase1_output@, now),
        n.miner@ == miner@.skip(1),
        n.worker_id@ == worker_id@,
        n.prove_id@ == prove_id@,
        n.sector_id == sector_id,
        n.phase1_output@ == phase1_output@,
        n.task_type == 0,
        n.status == INIT_CODE,
        n.create_at == now,
{
    let len: usize = miner.unicode_len();
    let rest = miner.substring_char(1, len);
    NewTask {
        miner: rest.to_owned(),
        prove_id: prove_id,
        sector_id: sector_id,
        phase1_output: phase1_output,
        worker_id: worker_id,
        task_type: 0,
        status: TaskStatus::Init.code(),
        create_at: now,
    }
}

impl TaskpoolImpl {
    #[verifier::type_invariant]
    spec fn rows_ordered(self) -> bool {
        self@.wf()
    }

    /// A pool over the given rows; `None` where the ids of either table do
    /// not grow strictly from row to row.
    pub fn new(tasks: Vec<Task>, workers: Vec<WorkerInfo>) -> (p: Option<TaskpoolImpl>)
        ensures
            p is Some <==> (PoolView { tasks: task_rows(tasks@), workers: worker_rows(workers@) }).wf(),
            p matches Some(p) ==> p@ == (PoolView { tasks: task_rows(tasks@), workers: worker_rows(workers@) }),
    {
        let ghost tv = task_rows(tasks@);
        let ghost wv = worker_rows(workers@);
        let mut i: usize = 1;
        while i < tasks.len()
            invariant
                1 <= i,
                tv == task_rows(tasks@),
                forall|a: int, b: int| 0 <= a < b < i && b < tv.len() ==> tv[a].id < tv[b].id,
            decreases tasks.len() - i,
        {
            if tasks[i - 1].id >= tasks[i].id {
                assert(!task_ids_increasing(tv)) by {
                    assert(tv[i - 1].id >= tv[i as int].id);
                }
                return None;
            }
            proof {
                assert(tv[i - 1].id < tv[i as int].id);
                assert forall|a: int, b: int| 0 <= a < b < i + 1 && b < tv.len() implies tv[a].id
                    < tv[b].id by {
                    if b == i && a < i - 1 {
                        assert(tv[a].id < tv[i - 1].id);
                    }
                }
            }
            i = i + 1;
        }
        let mut j: usize = 1;
        while j < workers.len()
            invariant
                1 <= j,
                wv == worker_rows(workers@),
                task_ids_increasing(tv),
                forall|a: int, b: int| 0 <= a < b < j && b < wv.len() ==> wv[a].id < wv[b].id,
            decreases workers.len() - j,
        {
            if workers[j - 1].id >= workers[j].id {
                assert(!worker_ids_increasing(wv)) by {
                    assert(wv[j - 1].id >= wv[j as int].id);
                }
                return None;
            }
            proof {
                assert(wv[j - 1].id < wv[j as int].id);
                assert forall|a: int, b: int| 0 <= a < b < j + 1 && b < wv.len() implies wv[a].id
                    < wv[b].id by {
                    if b == j && a < j - 1 {
                        assert(wv[a].id < wv[j - 1].id);
                    }
                }
            }
            j = j + 1;
        }
        Some(TaskpoolImpl { tasks, workers })
    }

    /// The task rows, in order of id.
    pub fn tasks(&self) -> (r: &Vec<Task>)
        ensures
            task_rows(r@) == self@.tasks,
            self@.wf(),
    {
        proof {
            use_type_invariant(self);
        }
        &self.tasks
    }

    /// The worker rows, in order of id.
    pub fn workers(&self) -> (r: &Vec<WorkerInfo>)
        ensures
            worker_rows(r@) == self@.workers,
            self@.wf(),
    {
        proof {
            use_type_invariant(self);
        }
        &self.workers
    }

    /// The rows of both tables.
    pub fn into_rows(self) -> (r: (Vec<Task>, Vec<WorkerInfo>))
        ensures
            task_rows(r.0@) == self@.tasks,
            worker_rows(r.1@) == self@.workers,
    {
        (self.tasks, self.workers)
    }

    /// The position of the task with `tid`, found by bisection on the ids.
    fn position(&self, tid: i64) -> (r: Option<usize>)
        ensures
            match r {
                Some(i) => i < self@.tasks.len() && self@.tasks[i as int].id == tid,
                None => !self@.has_task(tid),
            },
    {
        proof {
            use_type_invariant(self);
        }
        let ghost rows = self@.tasks;
        let mut lo: usize = 0;
        let mut hi: usize = self.tasks.len();
        while lo < hi
            invariant
                rows == self@.tasks,
                rows == task_rows(self.tasks@),
                task_ids_increasing(rows),
                lo <= hi <= rows.len(),
                forall|k: int| 0 <= k < lo ==> rows[k].id < tid,
                forall|k: int| hi <= k < rows.len() ==> rows[k].id > tid,
            decreases hi - lo,
        {
            let mid: usize = lo + (hi - lo) / 2;
            let m: i64 = self.tasks[mid].id;
            assert(rows[mid as int].id == m);
            if m == tid {
                return Some(mid);
            } else if m < tid {
                lo = mid + 1;
            } else {
                hi = mid;
            }
        }
        None
    }

    /// The task with `tid`; `NotFound` where there is none.
    pub fn fetch(&self, tid: i64) -> (r: Result<Task, PoolError>)
        ensures
            match r {
                Ok(t) => self@.task(tid) == Some(t@),
                Err(e) => e == PoolError::NotFound && self@.task(tid) is None,
            },
            self@.wf(),
    {
        proof {
            use_type_invariant(self);
        }
        match self.position(tid) {
            Some(i) => {
                proof {
                    self@.lemma_task_at(i as int);
                }
                Ok(self.tasks[i].clone())
            },
            None => Err(PoolError::NotFound),
        }
    }

    /// The state of the task with `tid`; `NotFound` where there is none.
    pub fn get_status(&self, tid: i64) -> (r: Result<TaskStatus, PoolError>)
        requires
            self@.task(tid) matches Some(t) ==> status_of_code(t.status) is Some,
        ensures
            match r {
                Ok(s) => self@.task(tid) matches Some(t) && status_of_code(t.status) == Some(s),
                Err(e) => e == PoolError::NotFound && self@.task(tid) is None,
            },
            self@.wf(),
    {
        proof {
            use_type_invariant(self);
        }
        match self.position(tid) {
            Some(i) => {
                proof {
                    self@.lemma_task_at(i as int);
                }
                match TaskStatus::from_code(self.tasks[i].status) {
                    Some(s) => Ok(s),
                    None => {
                        assert(false);
                        Err(PoolError::NotFound)
                    },
                }
            },
            None => Err(PoolError::NotFound),
        }
    }

    /// Replaces the task row at position `i` by `row`, which keeps its id.
    fn set_task_row(&mut self, i: usize, row: Task)
        requires
            i < old(self)@.tasks.len(),
            row.id == old(self)@.tasks[i as int].id,
        ensures
            final(self)@ == (PoolView {
                tasks: old(self)@.tasks.update(i as int, row@),
                workers: old(self)@.workers,
            }),
            final(self)@.wf(),
    {
        proof {
            use_type_invariant(&*self);
        }
        let ghost pre = self@;
        proof {
            assert(task_rows(self.tasks@.update(i as int, row)) =~= pre.tasks.update(i as int, row@));
            assert(task_ids_increasing(pre.tasks.update(i as int, row@)));
        }
        let mut rows: Vec<Task> = Vec::new();
        std::mem::swap(&mut rows, &mut self.tasks);
        rows[i] = row;
        self.tasks = rows;
        proof {
            use_type_invariant(&*self);
        }
    }

    /// Sets the task with `tid` to the `Error` state with `err_msg`; a `tid`
    /// that no task has changes nothing.
    pub fn record_error(&mut self, tid: i64, err_msg: String)
        ensures
            final(self)@ == old(self)@.with_error(tid, err_msg@),
            final(self)@.wf(),
    {
        proof {
            use_type_invariant(&*self);
        }
        let ghost pre = self@;
        let ghost post = pre.with_error(tid, err_msg@);
        match self.position(tid) {
            Some(i) => {
                let mut row = self.tasks[i].clone();
                row.status = ERROR_CODE;
                row.error_msg = err_msg;
                assert(row@ == post.tasks[i as int]);
                self.set_task_row(i, row);
                proof {
                    pre.lemma_only_row_with_id(i as int);
                }
                assert(self@.tasks =~= post.tasks);
            },
            None => {
                assert(self@.tasks =~= post.tasks);
            },
        }
    }

    /// Stores `proof` for the task with `tid` and sets it to the `Error`
    /// state; a `tid` that no task has changes nothing.
    pub fn record_proof(&mut self, tid: i64, proof: String)
        ensures
            final(self)@ == old(self)@.with_proof(tid, proof@),
            final(self)@.wf(),
    {
        proof {
            use_type_invariant(&*self);
        }
        let ghost pre = self@;
        let ghost post = pre.with_proof(tid, proof@);
        match self.position(tid) {
            Some(i) => {
                let mut row = self.tasks[i].clone();
                row.status = ERROR_CODE;
                row.proof = proof;
                assert(row@ == post.tasks[i as int]);
                self.set_task_row(i, row);
                proof {
                    pre.lemma_only_row_with_id(i as int);
                }
                assert(self@.tasks =~= post.tasks);
            },
            None => {
                assert(self@.tasks =~= post.tasks);
            },
        }
    }

    /// The tasks that wait for a worker, in order of id.
    pub fn fetch_undo(&self) -> (r: Vec<Task>)
        ensures
            task_rows(r@) == self@.undo(),
            self@.wf(),
    {
        proof {
            use_type_invariant(self);
        }
        let ghost rows = self@.tasks;
        let mut out: Vec<Task> = Vec::new();
        let mut i: usize = 0;
        while i < self.tasks.len()
            invariant
                i <= rows.len(),
                rows == task_rows(self.tasks@),
                task_rows(out@) == rows.take(i as int).filter(todo_pred()),
            decreases rows.len() - i,
        {
            let ghost before = out@;
            assert(rows.take(i + 1) =~= rows.take(i as int).push(rows[i as int]));
            proof {
                rows.take(i as int).lemma_filter_push(rows[i as int], todo_pred());
            }
            assert(todo_pred()(rows[i as int]) == (self.tasks[i as int].status == INIT_CODE));
            if self.tasks[i].status == INIT_CODE {
                out.push(self.tasks[i].clone());
                assert(task_rows(out@) =~= task_rows(before).push(rows[i as int]));
            }
            i = i + 1;
        }
        assert(rows.take(rows.len() as int) =~= rows);
        out
    }

    /// Whether some task waits for a worker.
    pub fn has_todo(&self) -> (r: bool)
        ensures
            r == self@.has_todo(),
            self@.wf(),
    {
        proof {
            use_type_invariant(self);
        }
        let mut i: usize = 0;
        while i < self.tasks.len()
            invariant
                i <= self@.tasks.len(),
                self@.wf(),
                self@.tasks == task_rows(self.tasks@),
                forall|k: int| 0 <= k < i ==> !is_todo(#[trigger] self@.tasks[k]),
            decreases self@.tasks.len() - i,
        {
            if self.tasks[i].status == INIT_CODE {
                assert(is_todo(self@.tasks[i as int]));
                return true;
            }
            i = i + 1;
        }
        false
    }

    /// Hands out the first task that waits for a worker, as it was before
    /// the hand-out, and stamps its row with `start_at` = `now`; the row
    /// stays in the `Init` state.
    pub fn fetch_one_todo_at(&mut self, now: i64) -> (t: Task)
        requires
            old(self)@.has_todo(),
        ensures
            t@ == old(self)@.tasks[old(self)@.first_todo()],
            final(self)@ == old(self)@.claim(now),
            final(self)@.wf(),
    {
        proof {
            use_type_invariant(&*self);
        }
        let ghost pre = self@;
        proof {
            pre.lemma_first_todo();
        }
        let ghost f: int = pre.first_todo();
        let mut i: usize = 0;
        while self.tasks[i].status != INIT_CODE
            invariant
                0 <= i <= f,
                f < self.tasks.len(),
                pre == self@,
                pre.tasks == task_rows(self.tasks@),
                pre.is_first_todo(f),
            decreases f - i,
        {
            i = i + 1;
        }
        assert(i == f) by {
            if (i as int) < f {
                assert(!is_todo(pre.tasks[i as int]));
            }
        }
        let t = self.tasks[i].clone();
        let mut row = t.clone();
        row.status = INIT_CODE;
        row.start_at = now;
        self.set_task_row(i, row);
        assert(self@.tasks =~= pre.claim(now).tasks);
        t
    }

    /// `fetch_one_todo_at` at the current time.
    pub fn fetch_one_todo(&mut self) -> (t: Task)
        requires
            old(self)@.has_todo(),
        ensures
            t@ == old(self)@.tasks[old(self)@.first_todo()],
            exists|now: i64| final(self)@ == old(self)@.claim(now),
            final(self)@.wf(),
    {
        let now: i64 = now_timestamp();
        self.fetch_one_todo_at(now)
    }

    /// Inserts a submission under the next task id. Returns the number of
    /// rows inserted, 1; `Full` where no id is left.
    pub fn insert(&mut self, n: NewTask) -> (r: Result<i64, PoolError>)
        ensures
            match old(self)@.insert(n@) {
                Ok(p) => r == Ok::<i64, PoolError>(1) && final(self)@ == p,
                Err(e) => r == Err::<i64, PoolError>(e) && final(self)@ == old(self)@,
            },
            final(self)@.wf(),
    {
        proof {
            use_type_invariant(&*self);
        }
        let ghost pre = self@;
        let len: usize = self.tasks.len();
        let id: i64 = if len == 0 {
            1
        } else {
            let last: i64 = self.tasks[len - 1].id;
            if last == i64::MAX {
                return Err(PoolError::Full);
            }
            last + 1
        };
        let ghost nv = n@;
        let row = n.into_row(id);
        proof {
            assert forall|k: int| 0 <= k < pre.tasks.len() implies pre.tasks[k].id < id by {
                if k < pre.tasks.len() - 1 {
                    assert(pre.tasks[k].id < pre.tasks.last().id);
                }
            }
        }
        let mut rows: Vec<Task> = Vec::new();
        std::mem::swap(&mut rows, &mut self.tasks);
        let ghost rv = row@;
        rows.push(row);
        assert(task_rows(rows@) =~= pre.tasks.push(rv));
        self.tasks = rows;
        assert(self@.tasks =~= pre.tasks.push(task_row(nv, id)));
        proof {
            use_type_invariant(&*self);
        }
        Ok(1)
    }

    /// Submits a task at time `now`: inserts `new_task` of the arguments.
    pub fn add_at(
        &mut self,
        miner: &str,
        worker_id: String,
        prove_id: String,
        sector_id: i64,
        phase1_output: String,
        now: i64,
    ) -> (r: Result<i64, PoolError>)
        requires
            miner@.len() >= 1,
            (miner@[0] as int) < 128,
        ensures
            match old(self)@.insert(
                submission(miner@, worker_id@, prove_id@, sector_id, phase1_output@, now),
            ) {
                Ok(p) => r == Ok::<i64, PoolError>(1) && final(self)@ == p,
                Err(e) => r == Err::<i64, PoolError>(e) && final(self)@ == old(self)@,
            },
            final(self)@.wf(),
    {
        let n = new_task(miner, worker_id, prove_id, sector_id, phase1_output, now);
        self.insert(n)
    }

    /// Submits a task for the miner `miner_arg` at the current time: the
    /// miner column holds the address text without its network prefix.
    pub fn add(
        &mut self,
        miner_arg: &forest_address::Address,
        worker_id: String,
        prove_id: String,
        sector_id: i64,
        phase1_output: String,
    ) -> (r: Result<i64, PoolError>)
        ensures
            exists|miner: Seq<char>, now: i64|
                {
                    &&& miner == address_string(*miner_arg)
                    &&& is_address_text(miner)
                    &&& match #[trigger] old(self)@.insert(
                        submission(miner, worker_id@, prove_id@, sector_id, phase1_output@, now),
                    ) {
                        Ok(p) => r == Ok::<i64, PoolError>(1) && final(self)@ == p,
                        Err(e) => r == Err::<i64, PoolError>(e) && final(self)@ == old(self)@,
                    }
                },
            final(self)@.wf(),
    {
        let miner = address_text(miner_arg);
        let now: i64 = now_timestamp();
        self.add_at(miner.as_str(), worker_id, prove_id, sector_id, phase1_output, now)
    }

    /// The identity stored in the first worker row.
    fn stored_id(&self) -> (r: u128)
        requires
            self@.workers.len() > 0,
            self@.stored_worker_id() is Some,
        ensures
            self@.stored_worker_id() == Some(r),
    {
        match parse_uuid(self.workers[0].worker_id.as_str()) {
            Some(u) => u,
            None => {
                assert(false);
                0
            },
        }
    }

    /// Registers the first worker under the identity `fresh`, stored as its
    /// hyphenated text.
    fn register_first(&mut self, fresh: u128)
        requires
            old(self)@.workers.len() == 0,
        ensures
            final(self)@ == old(self)@.register_worker(uuid_hyphenated(fresh)),
            final(self)@.stored_worker_id() == Some(fresh),
            final(self)@.wf(),
    {
        proof {
            use_type_invariant(&*self);
        }
        let ghost pre = self@;
        let text = uuid_text(fresh);
        let ghost tv = text@;
        let mut rows: Vec<WorkerInfo> = Vec::new();
        std::mem::swap(&mut rows, &mut self.workers);
        rows.push(WorkerInfo { id: 1, worker_id: text });
        assert(worker_rows(rows@) =~= pre.workers.push(WorkerInfoView { id: 1, worker_id: tv }));
        self.workers = rows;
        proof {
            use_type_invariant(&*self);
        }
    }

    /// `get_worker_id` with `fresh` as the identity drawn for a worker table
    /// that is still empty: the stored identity where there is one, with the
    /// pool unchanged; otherwise `fresh`, registered as the first worker.
    pub fn get_worker_id_with(&mut self, fresh: u128) -> (r: u128)
        requires
            old(self)@.workers.len() > 0 ==> old(self)@.stored_worker_id() is Some,
        ensures
            old(self)@.worker_id_step(r, final(self)@),
            old(self)@.workers.len() == 0 ==> r == fresh,
            old(self)@.workers.len() > 0 ==> final(self)@ == old(self)@,
            final(self)@.wf(),
    {
        proof {
            use_type_invariant(&*self);
        }
        if self.workers.len() > 0 {
            self.stored_id()
        } else {
            self.register_first(fresh);
            fresh
        }
    }

    /// The identity of this worker: the one stored in the first worker row,
    /// with the pool unchanged; where no worker is stored yet, a fresh random
    /// identity, registered as the first worker. A new row is written only
    /// into an empty worker table, so an identity, once stored, is the one
    /// every later call returns.
    pub fn get_worker_id(&mut self) -> (r: u128)
        requires
            old(self)@.workers.len() > 0 ==> old(self)@.stored_worker_id() is Some,
        ensures
            old(self)@.worker_id_step(r, final(self)@),
            old(self)@.workers.len() == 0 ==> is_random_uuid(r),
            final(self)@.wf(),
    {
        proof {
            use_type_invariant(&*self);
        }
        if self.workers.len() > 0 {
            self.stored_id()
        } else {
            let fresh: u128 = random_uuid();
            self.get_worker_id_with(fresh)
        }
    }

    /// `get_worker_id` where the stored identity can be read; `None`, with
    /// the pool unchanged, where the first worker row holds no UUID text.
    pub fn try_get_worker_id(&mut self) -> (r: Option<u128>)
        ensures
            match r {
                Some(u) => {
                    &&& old(self)@.worker_id_step(u, final(self)@)
                    &&& old(self)@.workers.len() == 0 ==> is_random_uuid(u)
                },
                None => {
                    &&& old(self)@.workers.len() > 0
                    &&& old(self)@.stored_worker_id() is None
                    &&& final(self)@ == old(self)@
                },
            },
            final(self)@.wf(),
    {
        proof {
            use_type_invariant(&*self);
        }
        if self.workers.len() > 0 && parse_uuid(self.workers[0].worker_id.as_str()).is_none() {
            return None;
        }
        Some(self.get_worker_id())
    }
}

} // verus!
