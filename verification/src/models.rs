//! Rows of the `tasks` and `worker_infos` tables, the values that are
//! inserted into them, and the base64 form of byte strings.
use vstd::prelude::*;

verus! {

/// A row of the `tasks` table.
pub struct Task {
    pub id: i64,
    pub miner: String,
    pub prove_id: String,
    pub sector_id: i64,
    pub phase1_output: String,
    pub proof: String,
    pub worker_id: String,
    pub task_type: i32,
    pub error_msg: String,
    pub status: i32,
    pub create_at: i64,
    pub start_at: i64,
    pub complete_at: i64,
}

/// A task row with its text columns as character sequences.
pub struct TaskView {
    pub id: i64,
    pub miner: Seq<char>,
    pub prove_id: Seq<char>,
    pub sector_id: i64,
    pub phase1_output: Seq<char>,
    pub proof: Seq<char>,
    pub worker_id: Seq<char>,
    pub task_type: i32,
    pub error_msg: Seq<char>,
    pub status: i32,
    pub create_at: i64,
    pub start_at: i64,
    pub complete_at: i64,
}

impl View for Task {
    type V = TaskView;

    open spec fn view(&self) -> TaskView {
        TaskView {
            id: self.id,
            miner: self.miner@,
            prove_id: self.prove_id@,
            sector_id: self.sector_id,
            phase1_output: self.phase1_output@,
            proof: self.proof@,
            worker_id: self.worker_id@,
            task_type: self.task_type,
            error_msg: self.error_msg@,
            status: self.status,
            create_at: self.create_at,
            start_at: self.start_at,
            complete_at: self.complete_at,
        }
    }
}

impl Clone for Task {
    fn clone(&self) -> (t: Self)
        ensures
            t == *self,
            t@ == self@,
    {
        Task {
            id: self.id,
            miner: self.miner.clone(),
            prove_id: self.prove_id.clone(),
            sector_id: self.sector_id,
            phase1_output: self.phase1_output.clone(),
            proof: self.proof.clone(),
            worker_id: self.worker_id.clone(),
            task_type: self.task_type,
            error_msg: self.error_msg.clone(),
            status: self.status,
            create_at: self.create_at,
            start_at: self.start_at,
            complete_at: self.complete_at,
        }
    }
}

/// The columns of a task that a submission sets; the table gives it its
/// `id`, and the columns left out start empty or at zero.
pub struct NewTask {
    pub miner: String,
    pub prove_id: String,
    pub sector_id: i64,
    pub phase1_output: String,
    pub worker_id: String,
    pub task_type: i32,
    pub status: i32,
    pub create_at: i64,
}

/// A submission with its text columns as character sequences.
pub struct NewTaskView {
    pub miner: Seq<char>,
    pub prove_id: Seq<char>,
    pub sector_id: i64,
    pub phase1_output: Seq<char>,
    pub worker_id: Seq<char>,
    pub task_type: i32,
    pub status: i32,
    pub create_at: i64,
}

impl View for NewTask {
    type V = NewTaskView;

    open spec fn view(&self) -> NewTaskView {
        NewTaskView {
            miner: self.miner@,
            prove_id: self.prove_id@,
            sector_id: self.sector_id,
            phase1_output: self.phase1_output@,
            worker_id: self.worker_id@,
            task_type: self.task_type,
            status: self.status,
            create_at: self.create_at,
        }
    }
}

/// The row that a submission becomes once the table has given it `id`.
pub open spec fn task_row(n: NewTaskView, id: i64) -> TaskView {
    TaskView {
        id: id,
        miner: n.miner,
        prove_id: n.prove_id,
        sector_id: n.sector_id,
        phase1_output: n.phase1_output,
        proof: Seq::empty(),
        worker_id: n.worker_id,
        task_type: n.task_type,
        error_msg: Seq::empty(),
        status: n.status,
        create_at: n.create_at,
        start_at: 0,
        complete_at: 0,
    }
}

impl NewTask {
    /// The row that this submission becomes under `id`.
    pub fn into_row(self, id: i64) -> (t: Task)
        ensures
            t@ == task_row(self@, id),
            t.id == id,
            t.miner@ == self.miner@,
            t.prove_id@ == self.prove_id@,
            t.sector_id == self.sector_id,
            t.phase1_output@ == self.phase1_output@,
            t.proof@ == Seq::<char>::empty(),
            t.worker_id@ == self.worker_id@,
            t.task_type == self.task_type,
            t.error_msg@ == Seq::<char>::empty(),
            t.status == self.status,
            t.create_at == self.create_at,
            t.start_at == 0,
            t.complete_at == 0,
    {
        Task {
            id: id,
            miner: self.miner,
            prove_id: self.prove_id,
            sector_id: self.sector_id,
            phase1_output: self.phase1_output,
            proof: String::new(),
            worker_id: self.worker_id,
            task_type: self.task_type,
            error_msg: String::new(),
            status: self.status,
            create_at: self.create_at,
            start_at: 0,
            complete_at: 0,
        }
    }
}

/// A row of the `worker_infos` table: the identity of a worker.
pub struct WorkerInfo {
    pub id: i64,
    pub worker_id: String,
}

/// A worker row with its text column as a character sequence.
pub struct WorkerInfoView {
    pub id: i64,
    pub worker_id: Seq<char>,
}

impl View for WorkerInfo {
    type V = WorkerInfoView;

    open spec fn view(&self) -> WorkerInfoView {
        WorkerInfoView { id: self.id, worker_id: self.worker_id@ }
    }
}

impl Clone for WorkerInfo {
    fn clone(&self) -> (w: Self)
        ensures
            w == *self,
            w@ == self@,
    {
        WorkerInfo { id: self.id, worker_id: self.worker_id.clone() }
    }
}

/// The column of a worker row that a registration sets.
pub struct NewWorkerInfo {
    pub worker_id: String,
}

/// A character of the standard base64 alphabet, for a value below 64.
pub open spec fn base64_char(v: int) -> char {
    if v < 26 {
        (65 + v) as char
    } else if v < 52 {
        (97 + v - 26) as char
    } else if v < 62 {
        (48 + v - 52) as char
    } else if v == 62 {
        '+'
    } else {
        '/'
    }
}

/// The standard base64 text of `b`, padded with `=` to a multiple of four
/// characters.
pub open spec fn base64_text(b: Seq<u8>) -> Seq<char>
    decreases b.len(),
{
    let x: int = if b.len() > 0 { b[0] as int } else { 0 };
    let y: int = if b.len() > 1 { b[1] as int } else { 0 };
    let z: int = if b.len() > 2 { b[2] as int } else { 0 };
    if b.len() == 0 {
        Seq::empty()
    } else if b.len() == 1 {
        seq![base64_char(x / 4), base64_char((x % 4) * 16), '=', '=']
    } else if b.len() == 2 {
        seq![base64_char(x / 4), base64_char((x % 4) * 16 + y / 16), base64_char((y % 16) * 4), '=']
    } else {
        seq![
            base64_char(x / 4),
            base64_char((x % 4) * 16 + y / 16),
            base64_char((y % 16) * 4 + z / 64),
            base64_char(z % 64),
        ] + base64_text(b.skip(3))
    }
}

/// The bytes that the standard base64 decoder reads from `text`, or `None`
/// where it refuses the text.
pub uninterp spec fn base64_decoded(text: Seq<char>) -> Option<Seq<u8>>;

/// Calls `base64::encode` (standard alphabet, padded). Claimed: the result is
/// `base64_text` of the input, and the decoder reads the input back from it.
#[verifier::external_body]
fn encode_base64(bytes: &[u8]) -> (text: String)
    requires
        4 * ((bytes@.len() + 2) / 3) <= usize::MAX,
    ensures
        text@ == base64_text(bytes@),
        base64_decoded(text@) == Some(bytes@),
{
    base64::encode(bytes)
}

/// Calls `base64::decode` (standard alphabet, padded). Claimed: the result is
/// `base64_decoded` of the text, `None` where the decoder returns an error.
#[verifier::external_body]
fn decode_base64(text: &str) -> (bytes: Option<Vec<u8>>)
    ensures
        match bytes {
            Some(b) => base64_decoded(text@) == Some(b@),
            None => base64_decoded(text@) is None,
        },
{
    base64::decode(text).ok()
}

/// A byte string that is stored and sent as its base64 text.
pub struct Bas64Byte(pub Vec<u8>);

impl Bas64Byte {
    /// The base64 text under which these bytes are stored.
    pub fn to_base64(&self) -> (text: String)
        requires
            4 * ((self.0@.len() + 2) / 3) <= usize::MAX,
        ensures
            text@ == base64_text(self.0@),
            base64_decoded(text@) == Some(self.0@),
    {
        encode_base64(self.0.as_slice())
    }

    /// The bytes that `text` stands for; `None` where `text` is not base64.
    pub fn from_base64(text: &str) -> (b: Option<Bas64Byte>)
        ensures
            match b {
                Some(b) => base64_decoded(text@) == Some(b.0@),
                None => base64_decoded(text@) is None,
            },
    {
        match decode_base64(text) {
            Some(bytes) => Some(Bas64Byte(bytes)),
            None => None,
        }
    }
}

} // verus!
