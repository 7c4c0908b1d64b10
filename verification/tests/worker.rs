use gpuproxy::models::{Bas64Byte, Task};
use gpuproxy::worker::{sector_of, LocalWorker, WorkerAction, WorkerEvent, DEFAULT_MAX_TASK};

fn task(prove_id: &str, sector_id: i64) -> Task {
    Task {
        id: 12,
        miner: String::from("01000"),
        prove_id: String::from(prove_id),
        sector_id,
        phase1_output: String::from("{\"registered_proof\":\"StackedDrg32GiBV1\"}"),
        proof: String::new(),
        worker_id: String::new(),
        task_type: 0,
        error_msg: String::new(),
        status: 1,
        create_at: 0,
        start_at: 0,
        complete_at: 0,
    }
}

#[test]
fn new_worker_runs_ten_proofs() {
    let w = LocalWorker::new(());
    assert_eq!(w.max_task, DEFAULT_MAX_TASK);
    assert_eq!(w.max_task, 10);
}

#[test]
fn tick_fetches_only_below_the_cap() {
    let w = LocalWorker::new(());
    assert_eq!(w.step(0, WorkerEvent::Tick), (1, WorkerAction::FetchTask));
    assert_eq!(w.step(9, WorkerEvent::Tick), (10, WorkerAction::FetchTask));
    assert_eq!(w.step(10, WorkerEvent::Tick), (10, WorkerAction::Wait));
    assert_eq!(w.step(11, WorkerEvent::Tick), (11, WorkerAction::Wait));
}

#[test]
fn recorded_proof_is_counted_off() {
    let w = LocalWorker::new(());
    assert_eq!(w.step(3, WorkerEvent::ProofRecorded), (2, WorkerAction::Wait));
    assert_eq!(w.step(1, WorkerEvent::ProofRecorded), (0, WorkerAction::Wait));
    assert_eq!(w.step(0, WorkerEvent::ProofRecorded), (usize::MAX, WorkerAction::Wait));
    let mut running = 0;
    for _ in 0..25 {
        let (n, _) = w.step(running, WorkerEvent::Tick);
        running = n;
        assert!(running <= w.max_task);
    }
    assert_eq!(running, 10);
}

#[test]
fn sector_ids_read_as_unsigned() {
    assert_eq!(sector_of(0), 0);
    assert_eq!(sector_of(5), 5);
    assert_eq!(sector_of(i64::MAX), i64::MAX as u64);
    assert_eq!(sector_of(-1), u64::MAX);
    assert_eq!(sector_of(i64::MIN), 1u64 << 63);
}

#[test]
fn job_decodes_the_prover_id() {
    let hex = "00ff10A0000000000000000000000000000000000000000000000000000000c1";
    let j = LocalWorker::new(()).job_for(&task(hex, -2)).unwrap();
    assert_eq!(j.task_id, 12);
    assert_eq!(j.prover_id[0], 0x00);
    assert_eq!(j.prover_id[1], 0xff);
    assert_eq!(j.prover_id[2], 0x10);
    assert_eq!(j.prover_id[3], 0xa0);
    assert_eq!(j.prover_id[31], 0xc1);
    assert_eq!(j.sector_id, u64::MAX - 1);
    assert_eq!(j.phase1_output, "{\"registered_proof\":\"StackedDrg32GiBV1\"}");
}

#[test]
fn job_refuses_a_bad_prover_id() {
    assert!(LocalWorker::new(()).job_for(&task("abcd", 1)).is_none());
    let odd = "0".repeat(63);
    assert!(LocalWorker::new(()).job_for(&task(&odd, 1)).is_none());
    let bad = format!("{}g", "0".repeat(63));
    assert!(LocalWorker::new(()).job_for(&task(&bad, 1)).is_none());
    let long = "0".repeat(66);
    assert!(LocalWorker::new(()).job_for(&task(&long, 1)).is_none());
}

#[test]
fn base64_text_of_bytes() {
    assert_eq!(Bas64Byte(b"hello".to_vec()).to_base64(), "aGVsbG8=");
    assert_eq!(Bas64Byte(b"hi".to_vec()).to_base64(), "aGk=");
    assert_eq!(Bas64Byte(b"abc".to_vec()).to_base64(), "YWJj");
    assert_eq!(Bas64Byte(vec![0xfb, 0xff]).to_base64(), "+/8=");
    assert_eq!(Bas64Byte(vec![]).to_base64(), "");
}

#[test]
fn base64_reads_back() {
    let bytes = vec![0u8, 1, 2, 250, 251, 252, 253];
    let text = Bas64Byte(bytes.clone()).to_base64();
    assert_eq!(Bas64Byte::from_base64(&text).unwrap().0, bytes);
    assert!(Bas64Byte::from_base64("not base64!").is_none());
}
