//! The lifecycle states of a proof task and their integer codes, as stored
//! in the `status` column of the task table.
use vstd::prelude::*;

verus! {

/// The state of a task. Each state is stored as its integer code:
/// `Undefined` 0, `Init` 1, `Running` 2, `Error` 3, `Completed` 4.
#[derive(Clone, Copy, Debug, PartialEq, Eq, Structural)]
pub enum TaskStatus {
    Undefined,
    Init,
    Running,
    Error,
    Completed,
}

/// The code under which a state is stored.
pub open spec fn status_code(s: TaskStatus) -> i32 {
    match s {
        TaskStatus::Undefined => 0,
        TaskStatus::Init => 1,
        TaskStatus::Running => 2,
        TaskStatus::Error => 3,
        TaskStatus::Completed => 4,
    }
}

/// The state that a stored code stands for, if any.
pub open spec fn status_of_code(code: i32) -> Option<TaskStatus> {
    if code == 0 {
        Some(TaskStatus::Undefined)
    } else if code == 1 {
        Some(TaskStatus::Init)
    } else if code == 2 {
        Some(TaskStatus::Running)
    } else if code == 3 {
        Some(TaskStatus::Error)
    } else if code == 4 {
        Some(TaskStatus::Completed)
    } else {
        None
    }
}

/// Code of the `Init` state: a task that waits for a worker.
pub const INIT_CODE: i32 = 1;

/// Code of the `Error` state.
pub const ERROR_CODE: i32 = 3;

impl TaskStatus {
    /// The integer code of this state.
    pub fn code(self) -> (c: i32)
        ensures
            c == status_code(self),
    {
        match self {
            TaskStatus::Undefined => 0,
            TaskStatus::Init => 1,
            TaskStatus::Running => 2,
            TaskStatus::Error => 3,
            TaskStatus::Completed => 4,
        }
    }

    /// The state stored under `code`; `None` for a code that names no state.
    pub fn from_code(code: i32) -> (s: Option<TaskStatus>)
        ensures
            s == status_of_code(code),
    {
        if code == 0 {
            Some(TaskStatus::Undefined)
        } else if code == 1 {
            Some(TaskStatus::Init)
        } else if code == 2 {
            Some(TaskStatus::Running)
        } else if code == 3 {
            Some(TaskStatus::Error)
        } else if code == 4 {
            Some(TaskStatus::Completed)
        } else {
            None
        }
    }
}

impl From<TaskStatus> for i32 {
    fn from(s: TaskStatus) -> (c: i32) {
        s.code()
    }
}

impl vstd::std_specs::convert::FromSpecImpl<TaskStatus> for i32 {
    open spec fn obeys_from_spec() -> bool {
        true
    }

    open spec fn from_spec(v: TaskStatus) -> i32 {
        status_code(v)
    }
}

/// Storing a state and reading its code back gives the same state, and a code
/// that reads back as a state is the code under which that state is stored.
pub proof fn lemma_status_code_roundtrip(s: TaskStatus, code: i32)
    ensures
        status_of_code(status_code(s)) == Some(s),
        status_of_code(code) == Some(s) ==> status_code(s) == code,
        status_of_code(code) is Some <==> 0 <= code <= 4,
{
}

} // verus!
