//! Laws of the task pool that relate its operations to one another.
use crate::models::{NewTaskView, TaskView, task_row};
use crate::status::{status_of_code, TaskStatus, ERROR_CODE, INIT_CODE};
use crate::task_pool::{PoolView, is_todo, submission, todo_pred};
use crate::identity::uuid_hyphenated;
use vstd::seq_lib::*;
use vstd::prelude::*;

verus! {

/// The position of the task row with `id` in a well-formed pool.
proof fn lemma_position(p: PoolView, id: i64) -> (i: int)
    requires
        p.wf(),
        p.has_task(id),
    ensures
        0 <= i < p.tasks.len(),
        p.tasks[i].id == id,
        p.task(id) == Some(p.tasks[i]),
{
    let i: int = choose|i: int| 0 <= i < p.tasks.len() && p.tasks[i].id == id;
    p.lemma_task_at(i);
    i
}

/// Setting a task to `Error` changes no ids, so the pool stays well formed;
/// reading the task back gives it in the `Error` state with the message;
/// every other task reads back as before; and a pool without the task is
/// left as it was.
pub proof fn law_record_error_read_back(p: PoolView, id: i64, msg: Seq<char>, other: i64)
    requires
        p.wf(),
        other != id,
    ensures
        p.with_error(id, msg).wf(),
        p.with_error(id, msg).task(id) == (match p.task(id) {
            Some(t) => Some(TaskView { status: ERROR_CODE, error_msg: msg, ..t }),
            None => None,
        }),
        p.with_error(id, msg).task(other) == p.task(other),
        !p.has_task(id) ==> p.with_error(id, msg) == p,
        p.has_task(id) ==> status_of_code(p.with_error(id, msg).task(id).unwrap().status) == Some(
            TaskStatus::Error,
        ),
{
    let q = p.with_error(id, msg);
    assert(q.tasks.len() == p.tasks.len());
    assert forall|k: int| 0 <= k < q.tasks.len() implies q.tasks[k].id == p.tasks[k].id by {}
    assert(q.wf());
    if p.has_task(id) {
        let i: int = lemma_position(p, id);
        q.lemma_task_at(i);
    } else {
        assert forall|k: int| 0 <= k < q.tasks.len() implies q.tasks[k] == p.tasks[k] by {}
        assert(q.tasks =~= p.tasks);
        assert(q == p);
    }
    if p.has_task(other) {
        let j: int = lemma_position(p, other);
        q.lemma_task_at(j);
    } else {
        assert(!q.has_task(other)) by {
            if q.has_task(other) {
                let k: int = choose|k: int| 0 <= k < q.tasks.len() && q.tasks[k].id == other;
                assert(p.tasks[k].id == other);
            }
        }
    }
}

/// Storing a proof changes no ids, so the pool stays well formed; reading
/// the task back gives it with the proof, in the `Error` state; every other
/// task reads back as before; and a pool without the task is left as it was.
pub proof fn law_record_proof_read_back(p: PoolView, id: i64, proof: Seq<char>, other: i64)
    requires
        p.wf(),
        other != id,
    ensures
        p.with_proof(id, proof).wf(),
        p.with_proof(id, proof).task(id) == (match p.task(id) {
            Some(t) => Some(TaskView { status: ERROR_CODE, proof: proof, ..t }),
            None => None,
        }),
        p.with_proof(id, proof).task(other) == p.task(other),
        !p.has_task(id) ==> p.with_proof(id, proof) == p,
{
    let q = p.with_proof(id, proof);
    assert(q.tasks.len() == p.tasks.len());
    assert forall|k: int| 0 <= k < q.tasks.len() implies q.tasks[k].id == p.tasks[k].id by {}
    assert(q.wf());
    if p.has_task(id) {
        let i: int = lemma_position(p, id);
        q.lemma_task_at(i);
    } else {
        assert forall|k: int| 0 <= k < q.tasks.len() implies q.tasks[k] == p.tasks[k] by {}
        assert(q.tasks =~= p.tasks);
        assert(q == p);
    }
    if p.has_task(other) {
        let j: int = lemma_position(p, other);
        q.lemma_task_at(j);
    } else {
        assert(!q.has_task(other)) by {
            if q.has_task(other) {
                let k: int = choose|k: int| 0 <= k < q.tasks.len() && q.tasks[k].id == other;
                assert(p.tasks[k].id == other);
            }
        }
    }
}

/// An accepted insertion keeps the pool well formed; the new task reads
/// back under the id the pool gave it, as the row the submission becomes;
/// every task that was there reads back as before; and a task submitted in
/// `Init` joins the end of the waiting tasks.
pub proof fn law_insert_read_back(p: PoolView, n: NewTaskView, other: i64)
    requires
        p.wf(),
        p.insert(n) is Ok,
    ensures
        ({
            let q = p.insert(n).unwrap();
            let id: i64 = p.next_task_id().unwrap();
            &&& q.wf()
            &&& !p.has_task(id)
            &&& q.task(id) == Some(task_row(n, id))
            &&& p.has_task(other) ==> q.task(other) == p.task(other)
            &&& q.undo() == (if n.status == INIT_CODE {
                p.undo().push(task_row(n, id))
            } else {
                p.undo()
            })
        }),
{
    let q = p.insert(n).unwrap();
    let id: i64 = p.next_task_id().unwrap();
    let row = task_row(n, id);
    assert(q.tasks == p.tasks.push(row));
    assert forall|k: int| 0 <= k < p.tasks.len() implies p.tasks[k].id < id by {
        if k < p.tasks.len() - 1 {
            assert(p.tasks[k].id < p.tasks.last().id);
        }
    }
    assert(q.wf());
    assert(!p.has_task(id));
    q.lemma_task_at(p.tasks.len() as int);
    if p.has_task(other) {
        let j: int = lemma_position(p, other);
        q.lemma_task_at(j);
    }
    p.tasks.lemma_filter_push(row, todo_pred());
}

/// The position of the first waiting task is the only first one.
proof fn lemma_first_todo_unique(p: PoolView, i: int)
    requires
        p.is_first_todo(i),
    ensures
        p.has_todo(),
        p.first_todo() == i,
{
    assert(p.has_todo());
    p.lemma_first_todo();
    let f: int = p.first_todo();
    if f < i {
        assert(!is_todo(p.tasks[f]));
    } else if i < f {
        assert(!is_todo(p.tasks[i]));
    }
}

/// The first element of `s` that meets `pred` is the first element that
/// `s.filter(pred)` keeps.
proof fn lemma_filter_first<A>(s: Seq<A>, pred: spec_fn(A) -> bool, i: int)
    requires
        0 <= i < s.len(),
        pred(s[i]),
        forall|k: int| 0 <= k < i ==> !pred(#[trigger] s[k]),
    ensures
        s.filter(pred).len() > 0,
        s.filter(pred)[0] == s[i],
    decreases i,
{
    s.lemma_filter_eq_filter_alt(pred);
    if i > 0 {
        assert(!pred(s[0]));
        assert(s.filter(pred) == s.drop_first().filter(pred));
        lemma_filter_first(s.drop_first(), pred, i - 1);
    }
}

/// The task that `fetch_one_todo` hands out is the first of the waiting
/// tasks; handing it out keeps the pool well formed and leaves it waiting, so
/// that it stays the first waiting task.
pub proof fn law_claim_first_undo(p: PoolView, now: i64)
    requires
        p.wf(),
        p.has_todo(),
    ensures
        p.undo().len() > 0,
        p.undo()[0] == p.tasks[p.first_todo()],
        p.claim(now).wf(),
        p.claim(now).has_todo(),
        p.claim(now).first_todo() == p.first_todo(),
        p.claim(now).tasks[p.first_todo()] == (TaskView {
            start_at: now,
            ..p.tasks[p.first_todo()]
        }),
{
    p.lemma_first_todo();
    let f: int = p.first_todo();
    lemma_filter_first(p.tasks, todo_pred(), f);
    let q = p.claim(now);
    assert forall|k: int| 0 <= k < q.tasks.len() implies q.tasks[k].id == p.tasks[k].id
        && q.tasks[k].status == p.tasks[k].status by {}
    assert(q.wf());
    assert(q.is_first_todo(f));
    lemma_first_todo_unique(q, f);
}

/// The worker identity persists: the first request registers a worker only
/// where none is stored (one row, under id 1) and never touches the tasks;
/// a second request finds a stored identity, returns the same one and leaves
/// the pool unchanged.
pub proof fn law_worker_id_persists(p: PoolView, r1: u128, q1: PoolView, r2: u128, q2: PoolView)
    requires
        p.wf(),
        p.worker_id_step(r1, q1),
        q1.worker_id_step(r2, q2),
    ensures
        q1.wf(),
        q1.tasks == p.tasks,
        q1.workers == p.workers || (p.workers.len() == 0 && q1.workers.len() == 1
            && q1.workers[0].id == 1),
        q1.workers.len() > 0,
        q1.stored_worker_id() == Some(r1),
        r2 == r1,
        q2 == q1,
{
}

/// A task that is recorded with an error or a proof no longer waits: it is
/// not among the waiting tasks afterwards.
pub proof fn law_settled_task_leaves_undo(p: PoolView, id: i64, text: Seq<char>)
    requires
        p.wf(),
    ensures
        forall|k: int| 0 <= k < p.with_error(id, text).undo().len() ==> (#[trigger] p.with_error(id, text).undo()[k]).id != id,
        forall|k: int| 0 <= k < p.with_proof(id, text).undo().len() ==> (#[trigger] p.with_proof(id, text).undo()[k]).id != id,
{
    let qe = p.with_error(id, text);
    let qp = p.with_proof(id, text);
    assert forall|k: int| 0 <= k < qe.undo().len() implies (#[trigger] qe.undo()[k]).id != id by {
        let t = qe.undo()[k];
        assert(qe.undo().contains(t));
        qe.tasks.lemma_filter_contains_rev(todo_pred(), t);
        qe.tasks.lemma_filter_pred(todo_pred(), k);
        let i: int = choose|i: int| 0 <= i < qe.tasks.len() && qe.tasks[i] == t;
        assert(qe.tasks[i] == t);
    }
    assert forall|k: int| 0 <= k < qp.undo().len() implies (#[trigger] qp.undo()[k]).id != id by {
        let t = qp.undo()[k];
        assert(qp.undo().contains(t));
        qp.tasks.lemma_filter_contains_rev(todo_pred(), t);
        qp.tasks.lemma_filter_pred(todo_pred(), k);
        let i: int = choose|i: int| 0 <= i < qp.tasks.len() && qp.tasks[i] == t;
        assert(qp.tasks[i] == t);
    }
}

/// A submitted task reads back, under the id the pool gives it, with every
/// submitted column as it was given: the miner address without its first
/// character, the submitter's worker id, the prover id, the sector, the
/// phase-one output and the submission time; it is of type 0, waits in
/// `Init`, and has no proof, no error, no start and no completion yet.
pub proof fn law_add_read_back(
    p: PoolView,
    miner: Seq<char>,
    worker_id: Seq<char>,
    prove_id: Seq<char>,
    sector_id: i64,
    phase1_output: Seq<char>,
    now: i64,
)
    requires
        p.wf(),
        p.next_task_id() is Some,
    ensures
        ({
            let r = p.insert(submission(miner, worker_id, prove_id, sector_id, phase1_output, now));
            let id = p.next_task_id().unwrap();
            &&& r is Ok
            &&& r.unwrap().task(id) matches Some(t) && {
                &&& t.id == id
                &&& t.miner == miner.skip(1)
                &&& t.worker_id == worker_id
                &&& t.prove_id == prove_id
                &&& t.sector_id == sector_id
                &&& t.phase1_output == phase1_output
                &&& t.proof == Seq::<char>::empty()
                &&& t.error_msg == Seq::<char>::empty()
                &&& t.task_type == 0
                &&& t.status == 1
                &&& t.create_at == now
                &&& t.start_at == 0
                &&& t.complete_at == 0
            }
        }),
{
    let n = submission(miner, worker_id, prove_id, sector_id, phase1_output, now);
    law_insert_read_back(p, n, 0);
}

/// With no worker stored, asking for the worker identity registers exactly
/// one worker, under id 1, whose stored text is the hyphenated form of the
/// identity returned, and touches no task.
pub proof fn law_first_worker_identity(p: PoolView, r: u128, q: PoolView)
    requires
        p.wf(),
        p.workers.len() == 0,
        p.worker_id_step(r, q),
    ensures
        q.tasks == p.tasks,
        q.workers.len() == 1,
        q.workers[0].id == 1,
        q.workers[0].worker_id == uuid_hyphenated(r),
        q.stored_worker_id() == Some(r),
{
}

} // verus!
