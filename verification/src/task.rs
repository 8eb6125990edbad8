//! One task: the work done for one claimed transaction. It makes the two
//! decode calls one after the other, each with its retries, and then hands out
//! the record to write.
//!
//! The caller sends the requests and writes the record. After each reply it asks
//! the task what comes next.

use vstd::prelude::*;
use crate::client::{Adapter, Request, spec_method_url, spec_receipt_url, DEFAULT_USER_AGENT};
use crate::dispatch::Event;
use crate::record::{RRDecodedTransaction, Transaction, spec_assemble};
use crate::retry::{DecodeError, Reply, Step, MAX_ATTEMPTS, on_reply, spec_on_reply};
use crate::sink::{block_dir, object_key, record_path, spec_block_dir, spec_object_key, spec_record_path};

verus! {

/// The decode call that a task is making.
#[derive(Debug, PartialEq)]
pub enum Call {
    /// The call that decodes the method.
    Method,
    /// The call that decodes the receipt, made once the method call is over
    /// with the outcome held here.
    Receipt { method: Result<serde_json::Value, DecodeError> },
}

/// A task between two replies.
#[derive(Debug, PartialEq)]
pub struct Task {
    /// The transaction that was claimed.
    pub tx: Transaction,
    /// The call that is being made.
    pub call: Call,
    /// The number of the attempt that is under way, counted from 0 for each
    /// call.
    pub attempt: u32,
}

/// Where a task stands after a reply.
pub enum Stage {
    /// Another attempt is to be made, by the task held here.
    Calling(Task),
    /// Both calls are over, and this is the record to store.
    Finished(RRDecodedTransaction),
}

/// The seconds to wait before the attempt that follows a step of the retry
/// policy: the delay of a retry, and none before the first attempt of a call.
pub open spec fn spec_wait(step: Step) -> u64 {
    match step {
        Step::RetryAfter { secs } => secs,
        _ => 0,
    }
}

/// What the caller of a task does next.
#[derive(Debug, PartialEq)]
pub enum Next {
    /// Wait `wait_secs` seconds, send `request`, and report the reply to
    /// `task`.
    Send { task: Task, wait_secs: u64, request: Request },
    /// Both calls are over: store `record`. In an object store its key is
    /// `key`; in a file system its file is `path`, in the directory `dir`.
    Store { key: String, dir: String, path: String, record: RRDecodedTransaction },
}

impl Task {
    /// The invariant of a task: the attempt under way is one that the retry
    /// policy allows.
    pub open spec fn wf(&self) -> bool {
        self.attempt < MAX_ATTEMPTS
    }

    /// Tests the invariant, for a caller that built or changed a task by hand.
    pub fn is_wf(&self) -> (b: bool)
        ensures
            b == self.wf(),
    {
        self.attempt < MAX_ATTEMPTS
    }

    /// The address of the call that is being made.
    pub open spec fn spec_url(&self, host: Seq<char>) -> Seq<char> {
        match self.call {
            Call::Method => spec_method_url(host, self.tx.hash@),
            Call::Receipt { .. } => spec_receipt_url(host, self.tx.hash@),
        }
    }

    /// Where the task stands once the call under way is over with `outcome`:
    /// after the method call, at the first attempt of the receipt call; after
    /// the receipt call, at the record of both outcomes.
    pub open spec fn spec_after_call(&self, outcome: Result<serde_json::Value, DecodeError>) -> Stage {
        match self.call {
            Call::Method => Stage::Calling(
                Task { tx: self.tx, call: Call::Receipt { method: outcome }, attempt: 0 },
            ),
            Call::Receipt { method } => Stage::Finished(spec_assemble(self.tx, method, outcome)),
        }
    }

    /// Where the task stands after the step that the retry policy decided: at
    /// the next attempt of the same call, or where the end of the call leads.
    pub open spec fn spec_after_step(&self, step: Step) -> Stage {
        match step {
            Step::RetryAfter { .. } => Stage::Calling(
                Task { tx: self.tx, call: self.call, attempt: (self.attempt + 1) as u32 },
            ),
            Step::Done(v) => self.spec_after_call(Ok(v)),
            Step::Failed(e) => self.spec_after_call(Err(e)),
        }
    }

    /// Where the task stands after the reply to the attempt under way.
    pub open spec fn spec_stage(&self, reply: Reply) -> Stage {
        self.spec_after_step(spec_on_reply(self.attempt as nat, reply))
    }

    /// Whether `next` tells the caller what `stage` asks for in the task of
    /// `tx`: to wait `wait` seconds and send the request of the task that goes
    /// on, or to store the record under the places derived from `tx`.
    pub open spec fn spec_tells(host: Seq<char>, tx: Transaction, stage: Stage, wait: u64, next: Next) -> bool {
        match stage {
            Stage::Calling(goes_on) => {
                &&& next matches Next::Send { task, wait_secs, request }
                &&& task == goes_on
                &&& wait_secs == wait
                &&& request.url@ == goes_on.spec_url(host)
                &&& request.user_agent@ == DEFAULT_USER_AGENT@
            },
            Stage::Finished(result) => {
                &&& next matches Next::Store { key, dir, path, record }
                &&& record == result
                &&& key@ == spec_object_key(tx.hash@)
                &&& dir@ == spec_block_dir(tx.block)
                &&& path@ == spec_record_path(tx.block, tx.hash@)
            },
        }
    }

    /// The replies that the task can still take before it must hand out its
    /// record: the attempts left of the call under way, and those of the
    /// receipt call where that is still to come.
    pub open spec fn spec_replies_left(&self) -> nat {
        let later: nat = match self.call {
            Call::Method => MAX_ATTEMPTS as nat,
            Call::Receipt { .. } => 0,
        };
        (MAX_ATTEMPTS - self.attempt) as nat + later
    }

    /// The task of `tx` at its start: at the first attempt of the method call.
    pub open spec fn spec_first(tx: Transaction) -> Task {
        Task { tx, call: Call::Method, attempt: 0 }
    }

    /// Starts the task of a claimed transaction: the first attempt of the
    /// method call, to be sent at once.
    pub fn start(tx: Transaction, adapter: &Adapter) -> (next: Next)
        ensures
            Self::spec_tells(adapter.host@, tx, Stage::Calling(Self::spec_first(tx)), 0, next),
            next matches Next::Send { task, .. } ==> task.wf(),
    {
        let request = adapter.decode_method(&tx.hash);
        Next::Send { task: Task { tx, call: Call::Method, attempt: 0 }, wait_secs: 0, request }
    }

    /// The request of the call that is being made.
    pub fn request(&self, adapter: &Adapter) -> (request: Request)
        ensures
            request.url@ == self.spec_url(adapter.host@),
            request.user_agent@ == DEFAULT_USER_AGENT@,
    {
        match &self.call {
            Call::Method => adapter.decode_method(&self.tx.hash),
            Call::Receipt { .. } => adapter.decode_receipt(&self.tx.hash),
        }
    }

    /// Takes the reply to the attempt under way and says what comes next, as
    /// the retry policy decides: the same call again after a delay, the next
    /// call, or the record to store. A failed call does not end the task: the
    /// record is handed out whatever the two calls came to, and only after
    /// both are over.
    pub fn on_reply(self, adapter: &Adapter, reply: &Reply) -> (next: Next)
        requires
            self.wf(),
        ensures
            Self::spec_tells(
                adapter.host@,
                self.tx,
                self.spec_stage(*reply),
                spec_wait(spec_on_reply(self.attempt as nat, *reply)),
                next,
            ),
            next matches Next::Send { task, .. } ==> task.wf(),
    {
        let step = on_reply(self.attempt, reply);
        match step {
            Step::RetryAfter { secs } => {
                let request = self.request(adapter);
                Next::Send {
                    task: Task { tx: self.tx, call: self.call, attempt: self.attempt + 1 },
                    wait_secs: secs,
                    request,
                }
            },
            Step::Done(v) => self.after_call(adapter, Ok(v)),
            Step::Failed(e) => self.after_call(adapter, Err(e)),
        }
    }

    /// What follows once the call under way is over with `outcome`.
    fn after_call(self, adapter: &Adapter, outcome: Result<serde_json::Value, DecodeError>) -> (next: Next)
        ensures
            Self::spec_tells(adapter.host@, self.tx, self.spec_after_call(outcome), 0, next),
            next matches Next::Send { task, .. } ==> task.wf(),
    {
        match self.call {
            Call::Method => {
                let request = adapter.decode_receipt(&self.tx.hash);
                Next::Send {
                    task: Task { tx: self.tx, call: Call::Receipt { method: outcome }, attempt: 0 },
                    wait_secs: 0,
                    request,
                }
            },
            Call::Receipt { method } => {
                let key = object_key(self.tx.hash.as_str());
                let dir = block_dir(self.tx.block);
                let path = record_path(self.tx.block, self.tx.hash.as_str());
                let record = RRDecodedTransaction::assemble(self.tx, method, outcome);
                Next::Store { key, dir, path, record }
            },
        }
    }
}

/// The record that a task hands out when its attempts, from the one under way
/// on, come back with `replies` in order; `None` where the replies run out
/// before both calls are over.
pub open spec fn spec_finish(task: Task, replies: Seq<Reply>) -> Option<RRDecodedTransaction>
    decreases replies.len(),
{
    if replies.len() == 0 {
        None
    } else {
        match task.spec_stage(replies[0]) {
            Stage::Calling(goes_on) => spec_finish(goes_on, replies.drop_first()),
            Stage::Finished(record) => Some(record),
        }
    }
}

/// Every claimed transaction leaves a record: whatever comes back, a task
/// hands out its record after at most twice `MAX_ATTEMPTS` replies, and the
/// record carries the fields of the transaction that was claimed.
pub proof fn lemma_task_leaves_a_record(task: Task, replies: Seq<Reply>)
    requires
        task.wf(),
        replies.len() >= task.spec_replies_left(),
    ensures
        spec_finish(task, replies) matches Some(record) && record.hash == task.tx.hash && record.from
            == task.tx.from && record.to == task.tx.to && record.block_number == task.tx.block,
    decreases replies.len(),
{
    match task.spec_stage(replies[0]) {
        Stage::Calling(goes_on) => {
            lemma_task_leaves_a_record(goes_on, replies.drop_first());
        },
        Stage::Finished(_) => {},
    }
}

/// What a finished task reports to the dispatcher: success where both decode
/// calls gave a value and the record was written, failure otherwise.
pub fn completion(record: &RRDecodedTransaction, written: bool) -> (event: Event)
    ensures
        event == if written && !record.spec_is_failure() {
            Event::TaskSucceeded
        } else {
            Event::TaskFailed
        },
{
    if written && !record.is_failure() {
        Event::TaskSucceeded
    } else {
        Event::TaskFailed
    }
}

} // verus!
