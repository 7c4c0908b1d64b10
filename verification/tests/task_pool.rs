use gpuproxy::models::{Task, WorkerInfo};
use gpuproxy::status::TaskStatus;
use gpuproxy::task_pool::{new_task, PoolError, TaskpoolImpl};

fn row(id: i64, status: i32) -> Task {
    Task {
        id,
        miner: format!("0100{}", id),
        prove_id: String::from("ab"),
        sector_id: id * 10,
        phase1_output: String::from("{}"),
        proof: String::new(),
        worker_id: String::from("w"),
        task_type: 0,
        error_msg: String::new(),
        status,
        create_at: 100,
        start_at: 0,
        complete_at: 0,
    }
}

fn worker(id: i64) -> WorkerInfo {
    WorkerInfo { id, worker_id: format!("worker-{}", id) }
}

fn pool(rows: Vec<Task>, workers: Vec<WorkerInfo>) -> TaskpoolImpl {
    TaskpoolImpl::new(rows, workers).unwrap()
}

#[test]
fn test_status() {
    assert_eq!(TaskStatus::Init.code(), 1);
    assert_eq!(TaskStatus::from_code(TaskStatus::Error.code()), Some(TaskStatus::Error));
}

#[test]
fn status_codes_are_fixed() {
    assert_eq!(TaskStatus::Undefined.code(), 0);
    assert_eq!(TaskStatus::Init.code(), 1);
    assert_eq!(TaskStatus::Running.code(), 2);
    assert_eq!(TaskStatus::Error.code(), 3);
    assert_eq!(TaskStatus::Completed.code(), 4);
    let c: i32 = TaskStatus::Completed.into();
    assert_eq!(c, 4);
}

#[test]
fn status_codes_read_back() {
    for s in [
        TaskStatus::Undefined,
        TaskStatus::Init,
        TaskStatus::Running,
        TaskStatus::Error,
        TaskStatus::Completed,
    ] {
        assert_eq!(TaskStatus::from_code(s.code()), Some(s));
    }
    assert_eq!(TaskStatus::from_code(5), None);
    assert_eq!(TaskStatus::from_code(-1), None);
}

#[test]
fn new_accepts_increasing_ids() {
    let p = pool(vec![row(1, 1), row(4, 3), row(9, 1)], vec![worker(2), worker(3)]);
    assert_eq!(p.tasks().len(), 3);
    assert_eq!(p.workers().len(), 2);
    let (t, w) = p.into_rows();
    assert_eq!(t[1].id, 4);
    assert_eq!(w[1].worker_id, "worker-3");
}

#[test]
fn new_refuses_unordered_or_repeated_ids() {
    assert!(TaskpoolImpl::new(vec![row(2, 1), row(1, 1)], vec![]).is_none());
    assert!(TaskpoolImpl::new(vec![row(2, 1), row(2, 1)], vec![]).is_none());
    assert!(TaskpoolImpl::new(vec![], vec![worker(5), worker(5)]).is_none());
    assert!(TaskpoolImpl::new(vec![], vec![]).is_some());
}

#[test]
fn new_task_drops_the_network_prefix() {
    let n = new_task("f01234", String::from("w1"), String::from("p"), 7, String::from("{\"a\":1}"), 55);
    assert_eq!(n.miner, "01234");
    assert_eq!(n.worker_id, "w1");
    assert_eq!(n.prove_id, "p");
    assert_eq!(n.sector_id, 7);
    assert_eq!(n.phase1_output, "{\"a\":1}");
    assert_eq!(n.task_type, 0);
    assert_eq!(n.status, 1);
    assert_eq!(n.create_at, 55);
}

#[test]
fn add_to_empty_pool_gives_id_one() {
    let mut p = pool(vec![], vec![]);
    let r = p.add_at("t0999", String::from("w"), String::from("abcd"), 3, String::from("out"), 1000);
    assert_eq!(r, Ok(1));
    let t = p.fetch(1).unwrap();
    assert_eq!(t.id, 1);
    assert_eq!(t.miner, "0999");
    assert_eq!(t.prove_id, "abcd");
    assert_eq!(t.sector_id, 3);
    assert_eq!(t.phase1_output, "out");
    assert_eq!(t.proof, "");
    assert_eq!(t.error_msg, "");
    assert_eq!(t.status, 1);
    assert_eq!(t.create_at, 1000);
    assert_eq!(t.start_at, 0);
    assert_eq!(p.get_status(1), Ok(TaskStatus::Init));
}

#[test]
fn add_takes_the_id_after_the_largest() {
    let mut p = pool(vec![row(3, 3), row(8, 1)], vec![]);
    assert_eq!(p.add_at("f0", String::new(), String::new(), 0, String::new(), 5), Ok(1));
    assert_eq!(p.tasks().len(), 3);
    assert_eq!(p.tasks()[2].id, 9);
    assert_eq!(p.fetch(9).unwrap().miner, "0");
}

#[test]
fn add_with_current_time() {
    let mut p = pool(vec![], vec![]);
    let miner = forest_address::Address::new_id(1234);
    assert_eq!(p.add(&miner, String::new(), String::new(), 1, String::new()), Ok(1));
    let t = p.fetch(1).unwrap();
    assert_eq!(t.miner, "01234");
    assert_eq!(t.miner, miner.to_string()[1..]);
    assert!(t.create_at > 0);
}

#[test]
fn add_refuses_when_ids_are_used_up() {
    let mut p = pool(vec![row(i64::MAX, 1)], vec![]);
    let r = p.add_at("f01", String::new(), String::new(), 1, String::new(), 1);
    assert_eq!(r, Err(PoolError::Full));
    assert_eq!(p.tasks().len(), 1);
}

#[test]
fn fetch_missing_task_is_not_found() {
    let p = pool(vec![row(1, 1), row(3, 1)], vec![]);
    assert!(matches!(p.fetch(2), Err(PoolError::NotFound)));
    assert_eq!(p.get_status(2), Err(PoolError::NotFound));
    assert_eq!(p.fetch(3).unwrap().sector_id, 30);
}

#[test]
fn fetch_finds_each_task_by_id() {
    let ids = [-5i64, 0, 2, 7, 11, 40, 41];
    let p = pool(ids.iter().map(|i| row(*i, 1)).collect(), vec![]);
    for i in ids {
        assert_eq!(p.fetch(i).unwrap().id, i);
    }
    for i in [-6i64, 1, 8, 42] {
        assert!(p.fetch(i).is_err());
    }
}

#[test]
fn record_error_reads_back() {
    let mut p = pool(vec![row(1, 1), row(2, 1)], vec![]);
    p.record_error(2, String::from("bad proof"));
    let t = p.fetch(2).unwrap();
    assert_eq!(t.status, 3);
    assert_eq!(t.error_msg, "bad proof");
    assert_eq!(p.get_status(2), Ok(TaskStatus::Error));
    assert_eq!(p.get_status(1), Ok(TaskStatus::Init));
    assert_eq!(p.fetch(1).unwrap().error_msg, "");
}

#[test]
fn record_proof_reads_back_in_error_state() {
    let mut p = pool(vec![row(1, 1), row(2, 2)], vec![]);
    p.record_proof(1, String::from("[1,2,3]"));
    let t = p.fetch(1).unwrap();
    assert_eq!(t.proof, "[1,2,3]");
    assert_eq!(t.status, 3);
    assert_eq!(p.get_status(2), Ok(TaskStatus::Running));
}

#[test]
fn record_on_missing_task_changes_nothing() {
    let mut p = pool(vec![row(1, 1)], vec![]);
    p.record_error(5, String::from("x"));
    p.record_proof(6, String::from("y"));
    let t = p.fetch(1).unwrap();
    assert_eq!(t.status, 1);
    assert_eq!(t.error_msg, "");
    assert_eq!(t.proof, "");
}

#[test]
fn fetch_undo_keeps_waiting_tasks_in_order() {
    let p = pool(vec![row(1, 3), row(2, 1), row(3, 4), row(4, 1), row(5, 2)], vec![]);
    let undo = p.fetch_undo();
    let ids: Vec<i64> = undo.iter().map(|t| t.id).collect();
    assert_eq!(ids, vec![2, 4]);
    assert!(pool(vec![row(1, 3)], vec![]).fetch_undo().is_empty());
}

#[test]
fn added_task_joins_the_waiting_tasks() {
    let mut p = pool(vec![row(1, 1), row(2, 3)], vec![]);
    p.add_at("f7", String::new(), String::new(), 0, String::new(), 9).unwrap();
    let ids: Vec<i64> = p.fetch_undo().iter().map(|t| t.id).collect();
    assert_eq!(ids, vec![1, 3]);
}

#[test]
fn fetch_one_todo_hands_out_first_waiting_task() {
    let mut p = pool(vec![row(1, 3), row(2, 1), row(3, 1)], vec![]);
    assert!(p.has_todo());
    let t = p.fetch_one_todo_at(777);
    assert_eq!(t.id, 2);
    assert_eq!(t.start_at, 0);
    let after = p.fetch(2).unwrap();
    assert_eq!(after.start_at, 777);
    assert_eq!(after.status, 1);
    let again = p.fetch_one_todo_at(778);
    assert_eq!(again.id, 2);
    assert_eq!(again.start_at, 777);
    assert_eq!(p.fetch(3).unwrap().start_at, 0);
}

#[test]
fn fetch_one_todo_with_current_time() {
    let mut p = pool(vec![row(4, 1)], vec![]);
    let t = p.fetch_one_todo();
    assert_eq!(t.id, 4);
    assert!(p.fetch(4).unwrap().start_at > 0);
}

#[test]
fn no_waiting_task() {
    assert!(!pool(vec![], vec![]).has_todo());
    assert!(!pool(vec![row(1, 2), row(2, 4)], vec![]).has_todo());
}

fn hyphenated(u: u128) -> String {
    let h = format!("{:032x}", u);
    format!("{}-{}-{}-{}-{}", &h[0..8], &h[8..12], &h[12..16], &h[16..20], &h[20..32])
}

#[test]
fn stored_worker_identity_is_returned() {
    let mut p = pool(
        vec![],
        vec![
            WorkerInfo { id: 4, worker_id: String::from("01234567-89ab-cdef-0123-456789abcdef") },
            worker(9),
        ],
    );
    let u = p.get_worker_id();
    assert_eq!(u, 0x0123456789abcdef0123456789abcdefu128);
    assert_eq!(p.workers().len(), 2);
    assert_eq!(p.workers()[0].id, 4);
    assert_eq!(p.get_worker_id(), u);
    assert_eq!(p.workers().len(), 2);
}

#[test]
fn first_worker_identity_is_registered_once() {
    let mut p = pool(vec![row(1, 1)], vec![]);
    let u = p.get_worker_id();
    assert_eq!((u >> 76) & 0xf, 4);
    assert_eq!((u >> 62) & 0x3, 2);
    assert_eq!(p.workers().len(), 1);
    assert_eq!(p.workers()[0].id, 1);
    let text = p.workers()[0].worker_id.clone();
    assert_eq!(text, hyphenated(u));
    assert_eq!(text.len(), 36);
    assert_eq!(text.as_bytes()[14], b'4');
    assert_eq!(p.get_worker_id(), u);
    assert_eq!(p.workers().len(), 1);
    assert_eq!(p.tasks().len(), 1);
}

#[test]
fn unreadable_worker_identity() {
    let mut p = pool(vec![], vec![worker(1)]);
    assert_eq!(p.try_get_worker_id(), None);
    assert_eq!(p.workers().len(), 1);
    let mut q = pool(vec![], vec![]);
    let u = q.try_get_worker_id().unwrap();
    assert_eq!(q.try_get_worker_id(), Some(u));
    assert_eq!(q.workers().len(), 1);
}

#[test]
fn settled_task_no_longer_waits() {
    let mut p = pool(vec![row(1, 1), row(2, 1), row(3, 1)], vec![]);
    p.record_error(2, String::from("fail"));
    p.record_proof(3, String::from("proof"));
    let ids: Vec<i64> = p.fetch_undo().iter().map(|t| t.id).collect();
    assert_eq!(ids, vec![1]);
}
