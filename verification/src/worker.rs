//! The decisions of the local worker: whether a tick may fetch another task,
//! and the proving job that a fetched task stands for.
use crate::models::Task;
use vstd::prelude::*;

verus! {

/// The number of proofs a new worker runs at once.
pub const DEFAULT_MAX_TASK: usize = 10;

/// A worker that takes tasks from `task_pool` and proves at most `max_task`
/// of them at once.
pub struct LocalWorker<P> {
    pub max_task: usize,
    pub task_pool: P,
}

/// What a worker needs to prove a task: the prover id as 32 bytes, the
/// sector number, and the phase-one output as stored.
pub struct SealJob {
    pub task_id: i64,
    pub prover_id: [u8; 32],
    pub sector_id: u64,
    pub phase1_output: String,
}

/// What the worker loop reports to the worker.
#[derive(Clone, Copy, Debug, PartialEq, Eq, Structural)]
pub enum WorkerEvent {
    /// The ticker fired.
    Tick,
    /// A proof was recorded in the pool.
    ProofRecorded,
}

/// What the worker loop does next.
#[derive(Clone, Copy, Debug, PartialEq, Eq, Structural)]
pub enum WorkerAction {
    /// Nothing until the next event.
    Wait,
    /// Fetch a waiting task and prove it.
    FetchTask,
}

/// The number of proofs in flight after `event`, and the action: a tick
/// fetches a task and counts it while fewer than `max_task` run; a recorded
/// proof is counted off, the counter wrapping around below zero as an
/// atomic `fetch_sub` does.
pub open spec fn worker_step(max_task: usize, running: usize, event: WorkerEvent) -> (usize, WorkerAction) {
    match event {
        WorkerEvent::Tick => if running < max_task {
            ((running + 1) as usize, WorkerAction::FetchTask)
        } else {
            (running, WorkerAction::Wait)
        },
        WorkerEvent::ProofRecorded => if running == 0 {
            (usize::MAX, WorkerAction::Wait)
        } else {
            ((running - 1) as usize, WorkerAction::Wait)
        },
    }
}

/// Whether `c` is a hexadecimal digit, in either case.
pub open spec fn is_hex_digit(c: char) -> bool {
    ||| 48 <= (c as int) <= 57
    ||| 97 <= (c as int) <= 102
    ||| 65 <= (c as int) <= 70
}

/// The value of a hexadecimal digit.
pub open spec fn hex_value(c: char) -> int {
    if 48 <= (c as int) <= 57 {
        c as int - 48
    } else if 97 <= (c as int) <= 102 {
        c as int - 87
    } else {
        c as int - 55
    }
}

/// Whether `s` is the hexadecimal text of a 32-byte prover id.
pub open spec fn is_prover_id_text(s: Seq<char>) -> bool {
    &&& s.len() == 64
    &&& forall|i: int| 0 <= i < 64 ==> is_hex_digit(#[trigger] s[i])
}

/// The bytes that hexadecimal text stands for, two digits to a byte, the
/// high digit first.
pub open spec fn hex_bytes(s: Seq<char>) -> Seq<u8> {
    Seq::new(s.len() / 2, |i: int| (16 * hex_value(s[2 * i]) + hex_value(s[2 * i + 1])) as u8)
}

/// The sector number that a stored sector id stands for: the id read as an
/// unsigned 64-bit value, so a negative id wraps around.
pub open spec fn sector_number(id: i64) -> u64 {
    if id >= 0 {
        id as u64
    } else {
        (id + 18446744073709551616int) as u64
    }
}

/// Calls `hex::FromHex::from_hex` for `[u8; 32]`. Claimed: it succeeds
/// exactly on 64 hexadecimal digits, with the bytes they stand for; `None`
/// where it returns an error.
#[verifier::external_body]
fn decode_prover_id(text: &str) -> (r: Option<[u8; 32]>)
    ensures
        match r {
            Some(b) => is_prover_id_text(text@) && b@ == hex_bytes(text@),
            None => !is_prover_id_text(text@),
        },
{
    <[u8; 32] as hex::FromHex>::from_hex(text).ok()
}

/// The sector number of a stored sector id.
pub fn sector_of(id: i64) -> (n: u64)
    ensures
        n == sector_number(id),
{
    if id >= 0 {
        id as u64
    } else {
        let k: u64 = (-(id + 1)) as u64;
        u64::MAX - k
    }
}

impl<P> LocalWorker<P> {
    /// A worker over `task_pool` that runs up to ten proofs at once.
    pub fn new(task_pool: P) -> (w: LocalWorker<P>)
        ensures
            w.max_task == DEFAULT_MAX_TASK,
            w.task_pool == task_pool,
    {
        LocalWorker { max_task: DEFAULT_MAX_TASK, task_pool }
    }

    /// The worker's decision on `event` while `running` proofs are in flight.
    pub fn step(&self, running: usize, event: WorkerEvent) -> (r: (usize, WorkerAction))
        ensures
            r == worker_step(self.max_task, running, event),
            event == WorkerEvent::Tick && running < self.max_task ==> r == (
            (running + 1) as usize,
            WorkerAction::FetchTask,
        ),
            event == WorkerEvent::Tick && running >= self.max_task ==> r == (
            running,
            WorkerAction::Wait,
        ),
            event == WorkerEvent::ProofRecorded && running > 0 ==> r == (
            (running - 1) as usize,
            WorkerAction::Wait,
        ),
    {
        match event {
            WorkerEvent::Tick => if running < self.max_task {
                (running + 1, WorkerAction::FetchTask)
            } else {
                (running, WorkerAction::Wait)
            },
            WorkerEvent::ProofRecorded => if running == 0 {
                (usize::MAX, WorkerAction::Wait)
            } else {
                (running - 1, WorkerAction::Wait)
            },
        }
    }

    /// The proving job for a fetched task; `None` where its prover id is not
    /// the hexadecimal text of 32 bytes.
    pub fn job_for(&self, task: &Task) -> (j: Option<SealJob>)
        ensures
            match j {
                Some(j) => {
                    &&& is_prover_id_text(task.prove_id@)
                    &&& j.task_id == task.id
                    &&& j.prover_id@ == hex_bytes(task.prove_id@)
                    &&& j.sector_id == sector_number(task.sector_id)
                    &&& j.phase1_output@ == task.phase1_output@
                },
                None => !is_prover_id_text(task.prove_id@),
            },
    {
        match decode_prover_id(task.prove_id.as_str()) {
            Some(prover_id) => Some(
                SealJob {
                    task_id: task.id,
                    prover_id,
                    sector_id: sector_of(task.sector_id),
                    phase1_output: task.phase1_output.clone(),
                },
            ),
            None => None,
        }
    }
}

/// A recorded proof counts exactly one proof off whenever one is in flight,
/// whatever the cap, also at the cap; and a tick below the cap counts exactly
/// one on and fetches, while a tick at or above the cap changes nothing.
pub proof fn law_step_counts(max_task: usize, running: usize)
    ensures
        running > 0 ==> worker_step(max_task, running, WorkerEvent::ProofRecorded).0 + 1 == running,
        worker_step(max_task, running, WorkerEvent::ProofRecorded).1 == WorkerAction::Wait,
        running < max_task ==> worker_step(max_task, running, WorkerEvent::Tick).0 == running + 1
            && worker_step(max_task, running, WorkerEvent::Tick).1 == WorkerAction::FetchTask,
        running >= max_task ==> worker_step(max_task, running, WorkerEvent::Tick).0 == running
            && worker_step(max_task, running, WorkerEvent::Tick).1 == WorkerAction::Wait,
        running == max_task && running > 0 ==> worker_step(
            max_task,
            worker_step(max_task, running, WorkerEvent::ProofRecorded).0,
            WorkerEvent::Tick,
        ).1 == WorkerAction::FetchTask,
{
}

/// The worker never has more than `max_task` proofs in flight: from a count
/// within the cap, a tick stays within it, and so does a recorded proof of
/// one that is in flight; a task is fetched only when the count rises by one.
pub proof fn law_worker_cap(max_task: usize, running: usize, event: WorkerEvent)
    requires
        running <= max_task,
        event == WorkerEvent::ProofRecorded ==> running > 0,
    ensures
        worker_step(max_task, running, event).0 <= max_task,
        worker_step(max_task, running, event).1 == WorkerAction::FetchTask <==> (event
            == WorkerEvent::Tick && running < max_task),
        worker_step(max_task, running, event).1 == WorkerAction::FetchTask
            ==> worker_step(max_task, running, event).0 == running + 1,
{
}

} // verus!
