# gpuproxy

A pool of commit-phase-2 proof tasks and the worker that proves them.

- `src/` is the verified library.
  - `status.rs`: task states and their stored integer codes.
  - `models.rs`: the rows of the `tasks` and `worker_infos` tables, and the
    base64 form of byte strings.
  - `task_pool.rs`: the pool of both tables and its operations (submit,
    fetch, list waiting tasks, hand out a waiting task, record an error or a
    proof, register a worker), each with the exact change it makes.
  - `identity.rs`: worker identities (random version-4 UUIDs in hyphenated
    text) and the clock.
  - `worker.rs`: the worker's decisions: its step on ticks and recorded proofs
    (which keeps at most `max_task` proofs in flight) and
    the proving job a fetched task stands for.
  - `laws.rs`: laws that relate the operations (reading back what a write
    wrote, the hand-out order, the table invariant).
- `app/` is the program around it: SQLite storage through diesel, the
  command line, the worker loop and the call into filecoin-proofs-api.
- `tests/` runs the library on concrete values.
