//! A pool of proof tasks and the decisions of the worker that proves them.
//!
//! The task pool keeps the rows of the `tasks` and `worker_infos` tables and
//! states, for each operation, exactly which rows it reads and how it
//! changes them. The storage behind the tables, the proving itself and the
//! command line live outside this library.
pub mod identity;
pub mod laws;
pub mod models;
pub mod status;
pub mod task_pool;
pub mod worker;
