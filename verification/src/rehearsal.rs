//! A whole run in memory: a backlog is drained into a sink held in memory,
//! against a decoding service that gives the same reply to every request.
//!
//! The run is made with the same dispatcher, tasks and retry policy as a run
//! against the network. Its tasks are worked off one after the other, the
//! oldest first. What it leaves behind is stated for every backlog, capacity
//! and reply.

use vstd::prelude::*;
use crate::client::Adapter;
use crate::dispatch::{Action, DispatchBatch, DispatchError, Event, Phase, Progress};
use crate::record::{spec_assemble, RRDecodedTransaction, Transaction};
use crate::retry::{is_transient, spec_on_reply, DecodeError, Reply, Step};
use crate::sink::{spec_object_key, MemorySink};
use crate::source::Database;
use crate::task::{completion, Call, Next, Task};

verus! {

/// The outcome of a decode call against a service that gives `reply` to every
/// attempt: failure once the attempts are used up where the reply is
/// transient, and else what the first attempt comes to.
pub open spec fn spec_settled(reply: Reply) -> Result<serde_json::Value, DecodeError> {
    if is_transient(reply) {
        Err(DecodeError::RetriesExhausted)
    } else {
        match spec_on_reply(0, reply) {
            Step::Done(v) => Ok(v),
            Step::Failed(e) => Err(e),
            Step::RetryAfter { .. } => Err(DecodeError::RetriesExhausted),
        }
    }
}

/// The record of a transaction whose two decode calls both meet `reply`.
pub open spec fn spec_record(tx: Transaction, reply: Reply) -> RRDecodedTransaction {
    spec_assemble(tx, spec_settled(reply), spec_settled(reply))
}

/// The sink after the records of `items` were written to it in order, each
/// under the key of its hash.
pub open spec fn spec_stored(
    sink: Map<Seq<char>, RRDecodedTransaction>,
    items: Seq<Transaction>,
    reply: Reply,
) -> Map<Seq<char>, RRDecodedTransaction>
    decreases items.len(),
{
    if items.len() == 0 {
        sink
    } else {
        spec_stored(sink, items.drop_last(), reply).insert(
            spec_object_key(items.last().hash@),
            spec_record(items.last(), reply),
        )
    }
}

/// No claimed transaction is lost: after a run, the sink holds a record under
/// the key of every transaction that was pending, whatever the service
/// replied; the record is that of the last transaction with that key; and the
/// run added no other key.
pub proof fn lemma_every_item_is_stored(
    sink: Map<Seq<char>, RRDecodedTransaction>,
    items: Seq<Transaction>,
    reply: Reply,
)
    ensures
        forall|i: int|
            0 <= i < items.len() ==> spec_stored(sink, items, reply).contains_key(
                spec_object_key(#[trigger] items[i].hash@),
            ),
        forall|i: int|
            0 <= i < items.len() && (forall|j: int|
                i < j < items.len() ==> spec_object_key(items[j].hash@) != spec_object_key(items[i].hash@))
                ==> spec_stored(sink, items, reply)[spec_object_key(#[trigger] items[i].hash@)]
                == spec_record(items[i], reply),
        forall|key: Seq<char>|
            spec_stored(sink, items, reply).contains_key(key) ==> sink.contains_key(key) || exists|i: int|
                0 <= i < items.len() && spec_object_key(#[trigger] items[i].hash@) == key,
        forall|key: Seq<char>| sink.contains_key(key) ==> spec_stored(sink, items, reply).contains_key(key),
    decreases items.len(),
{
    if items.len() > 0 {
        let earlier = items.drop_last();
        lemma_every_item_is_stored(sink, earlier, reply);
        let after = spec_stored(sink, items, reply);
        let last_key = spec_object_key(items.last().hash@);
        assert forall|i: int| 0 <= i < items.len() implies after.contains_key(
            spec_object_key(#[trigger] items[i].hash@),
        ) by {
            if i < items.len() - 1 {
                assert(earlier[i] == items[i]);
            }
        }
        assert forall|i: int|
            0 <= i < items.len() && (forall|j: int|
                i < j < items.len() ==> spec_object_key(items[j].hash@) != spec_object_key(
                    items[i].hash@,
                )) implies after[spec_object_key(#[trigger] items[i].hash@)] == spec_record(
            items[i],
            reply,
        ) by {
            if i < items.len() - 1 {
                assert(earlier[i] == items[i]);
                assert(spec_object_key(items[items.len() - 1].hash@) != spec_object_key(items[i].hash@));
                assert forall|j: int| i < j < earlier.len() implies spec_object_key(earlier[j].hash@)
                    != spec_object_key(earlier[i].hash@) by {
                    assert(earlier[j] == items[j]);
                }
            }
        }
        assert forall|key: Seq<char>| after.contains_key(key) implies sink.contains_key(key) || exists|
            i: int,
        |
            0 <= i < items.len() && spec_object_key(#[trigger] items[i].hash@) == key by {
            if key == last_key {
                assert(spec_object_key(items[items.len() - 1].hash@) == key);
            } else if !sink.contains_key(key) {
                let i = choose|i: int|
                    0 <= i < earlier.len() && spec_object_key(#[trigger] earlier[i].hash@) == key;
                assert(items[i] == earlier[i]);
            }
        }
    }
}

/// The replies that a task can still take before it must hand out its record.
pub open spec fn spec_replies_left(next: Next) -> nat {
    match next {
        Next::Send { task, .. } => task.spec_replies_left(),
        Next::Store { .. } => 0,
    }
}

/// Whether `next` is a stage of the task of `tx` when every attempt meets
/// `reply`.
pub open spec fn spec_on_course(next: Next, tx: Transaction, reply: Reply) -> bool {
    match next {
        Next::Send { task, .. } => {
            &&& task.wf()
            &&& task.tx == tx
            &&& task.call matches Call::Receipt { method } ==> method == spec_settled(reply)
        },
        Next::Store { key, record, .. } => {
            &&& key@ == spec_object_key(tx.hash@)
            &&& record == spec_record(tx, reply)
        },
    }
}

/// Runs the task of one transaction to its end against a service that gives
/// `reply` to every request, and returns the key and the record to store.
pub fn run_task(tx: Transaction, adapter: &Adapter, reply: &Reply) -> (stored: (String, RRDecodedTransaction))
    ensures
        stored.0@ == spec_object_key(tx.hash@),
        stored.1 == spec_record(tx, *reply),
{
    let mut next = Task::start(tx, adapter);
    loop
        invariant
            spec_on_course(next, tx, *reply),
        decreases spec_replies_left(next),
    {
        match next {
            Next::Send { task, wait_secs: _, request: _ } => {
                next = task.on_reply(adapter, reply);
            },
            Next::Store { key, dir: _, path: _, record } => {
                return (key, record);
            },
        }
    }
}

/// Drains the backlog into the sink with at most `capacity` tasks in flight,
/// against a service that gives `reply` to every request, and returns the
/// counts of the run.
///
/// Every pending transaction is claimed, and each leaves its record under the
/// key of its hash, in the order claimed. A capacity of zero is refused, and
/// then nothing is claimed or written.
pub fn drain(
    db: &mut Database,
    capacity: usize,
    adapter: &Adapter,
    reply: &Reply,
    sink: &mut MemorySink<RRDecodedTransaction>,
) -> (r: Result<Progress, DispatchError>)
    requires
        old(db).wf(),
    ensures
        final(db).wf(),
        final(db).spec_name() == old(db).spec_name(),
        capacity == 0 ==> r == Err::<Progress, DispatchError>(DispatchError::ZeroCapacity)
            && final(db).pending() == old(db).pending() && final(sink)@ == old(sink)@,
        capacity > 0 ==> r is Ok && final(db).pending().len() == 0 && final(sink)@ == spec_stored(
            old(sink)@,
            old(db).pending(),
            *reply,
        ),
        r matches Ok(p) ==> p.claimed == old(db).pending().len() && p.completed == p.claimed
            && p.estimated_remaining == 0 && p.succeeded == (if spec_settled(*reply) is Ok {
            p.claimed
        } else {
            0
        }),
        r matches Ok(p) ==> p.failed == p.claimed - p.succeeded,
{
    let mut batch = match DispatchBatch::new(capacity) {
        Ok(batch) => batch,
        Err(reason) => {
            return Err(reason);
        },
    };
    let ghost initial = db.pending();
    let ghost before = sink@;
    let total = db.estimate_remaining();
    let mut window: Vec<Transaction> = Vec::new();
    let ghost mut written: int = 0;
    proof {
        assert(initial.skip(0) =~= initial);
        assert(window@ =~= initial.subrange(0, 0));
        assert(initial.take(0).len() == 0);
    }
    loop
        invariant
            capacity > 0,
            batch.wf(),
            db.wf(),
            db.spec_name() == old(db).spec_name(),
            batch.phase != Phase::Aborted,
            batch.exhausted ==> db.pending().len() == 0,
            initial == old(db).pending(),
            before == old(sink)@,
            initial.len() == total,
            0 <= written,
            written + batch.in_flight <= initial.len(),
            window@ == initial.subrange(written, written + batch.in_flight),
            db.pending() == initial.skip(written + batch.in_flight),
            sink@ == spec_stored(before, initial.take(written), *reply),
            batch.claimed == written + batch.in_flight,
            batch.succeeded == (if spec_settled(*reply) is Ok {
                written
            } else {
                0
            }),
        decreases
                2 * db.pending().len() + batch.in_flight + (if batch.phase == Phase::Running {
                    1nat
                } else {
                    0nat
                }),
    {
        match batch.next_action() {
            Action::Claim => {
                match db.one_transaction() {
                    Some(tx) => {
                        window.push(tx);
                        let _ = batch.step(Event::Claimed);
                        proof {
                            assert(tx == initial[written + batch.in_flight - 1]);
                            assert(window@ =~= initial.subrange(written, written + batch.in_flight));
                            assert(db.pending() =~= initial.skip(written + batch.in_flight));
                        }
                    },
                    None => {
                        let _ = batch.step(Event::SourceEmpty);
                    },
                }
            },
            Action::AwaitTask => {
                let tx = window.remove(0);
                let (key, record) = run_task(tx, adapter, reply);
                let event = completion(&record, true);
                sink.put(key, record);
                let _ = batch.step(event);
                proof {
                    assert(tx == initial[written]);
                    assert(initial.take(written + 1).drop_last() =~= initial.take(written));
                    assert(initial.take(written + 1).last() == tx);
                    written = written + 1;
                    assert(window@ =~= initial.subrange(written, written + batch.in_flight));
                }
            },
            _ => {
                proof {
                    assert(initial.take(written) =~= initial);
                }
                return Ok(batch.progress(0));
            },
        }
    }
}

} // verus!
