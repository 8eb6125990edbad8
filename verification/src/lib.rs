//! Drains a backlog of blockchain transactions: each pending transaction is
//! claimed once, decoded by a remote service in two calls with retry and
//! backoff, and stored under a key derived from its hash.
//!
//! The crate holds the decisions of that engine as verified functions on plain
//! values. Network, storage and scheduling are left to the caller, which
//! performs the actions that these functions return and reports what happened.
//!
//! - `dispatch`: the dispatcher, which bounds the tasks in flight and ends the
//!   run only when all of them have completed.
//! - `task`: the steps of one task, from the first request to the record.
//! - `retry`: which replies are retried, after what delay, and how often.
//! - `client`: the requests made for a transaction.
//! - `record`: the pending transaction and the decoded record.
//! - `sink`: the key of a record, and a sink held in memory.
//! - `source`: a backlog held in memory, with its atomic claim.
//! - `rehearsal`: a whole run in memory, and what it leaves behind.
//! - `json`: the JSON values that are carried through.

pub mod client;
pub mod dispatch;
pub mod json;
pub mod record;
pub mod rehearsal;
pub mod retry;
pub mod sink;
pub mod source;
pub mod task;
