use chain_decoder::client::{Adapter, Request, DEFAULT_USER_AGENT};
use chain_decoder::dispatch::{Action, DispatchBatch, Event, Phase};
use chain_decoder::record::{RRDecodedTransaction, RRTransaction, RRTransactionDict, Transaction};
use chain_decoder::retry::{DecodeError, Reply};
use chain_decoder::sink::MemorySink;
use chain_decoder::source::Database;
use chain_decoder::task::{completion, Call, Next, Task};

fn ok_true() -> serde_json::Value {
    let mut fields = serde_json::Map::new();
    fields.insert("ok".to_string(), serde_json::Value::Bool(true));
    serde_json::Value::Object(fields)
}

fn tx(hash: &str, block: u32) -> Transaction {
    Transaction {
        from: "0xsender".to_string(),
        to: "0xreceiver".to_string(),
        hash: hash.to_string(),
        block,
        created_at: Some(1_660_000_000_000),
    }
}

fn stub() -> Adapter {
    Adapter::with_host("http://stub".to_string())
}

fn success() -> Reply {
    Reply::Status { code: 200, body: "{\"ok\":true}".to_string() }
}

fn send(next: Next) -> (Task, u64, Request) {
    match next {
        Next::Send { task, wait_secs, request } => (task, wait_secs, request),
        Next::Store { .. } => panic!("the task ended early"),
    }
}

fn store(next: Next) -> (String, String, String, RRDecodedTransaction) {
    match next {
        Next::Store { key, dir, path, record } => (key, dir, path, record),
        Next::Send { .. } => panic!("the task did not end"),
    }
}

fn run_task(start: Next, reply_to: &dyn Fn(&Request) -> Reply) -> (String, RRDecodedTransaction) {
    let adapter = stub();
    let mut next = start;
    loop {
        match next {
            Next::Send { task, request, .. } => {
                let reply = reply_to(&request);
                next = task.on_reply(&adapter, &reply);
            }
            Next::Store { key, record, .. } => return (key, record),
        }
    }
}

fn drain(
    db: &mut Database,
    capacity: usize,
    reply_to: &dyn Fn(&Request) -> Reply,
    sink: &mut MemorySink<RRDecodedTransaction>,
) -> (DispatchBatch, usize) {
    let adapter = stub();
    let mut batch = DispatchBatch::new(capacity).unwrap();
    let mut in_flight: Vec<Next> = Vec::new();
    let mut peak = 0;
    loop {
        assert_eq!(in_flight.len(), batch.in_flight);
        peak = peak.max(batch.in_flight);
        match batch.next_action() {
            Action::Claim => match db.one_transaction() {
                Some(tx) => {
                    in_flight.push(Task::start(tx, &adapter));
                    batch.step(Event::Claimed).unwrap();
                }
                None => {
                    batch.step(Event::SourceEmpty).unwrap();
                }
            },
            Action::AwaitTask => {
                let (key, record) = run_task(in_flight.remove(0), reply_to);
                let event = completion(&record, true);
                sink.put(key, record);
                batch.step(event).unwrap();
            }
            Action::Finish => return (batch, peak),
            Action::Abort => panic!("the source did not fail"),
        }
    }
}

#[test]
fn task_starts_with_the_method_call() {
    let (task, wait, request) = send(Task::start(tx("0xabc", 7), &stub()));
    assert_eq!(task, Task { tx: tx("0xabc", 7), call: Call::Method, attempt: 0 });
    assert_eq!(wait, 0);
    assert_eq!(request.url, "http://stub/decodeTransaction/0xabc");
    assert_eq!(request.user_agent, DEFAULT_USER_AGENT);
}

#[test]
fn receipt_call_follows_the_method_call() {
    let adapter = stub();
    let (task, _, _) = send(Task::start(tx("0xabc", 7), &adapter));
    let (task, wait, request) = send(task.on_reply(&adapter, &success()));
    assert_eq!(task, Task { tx: tx("0xabc", 7), call: Call::Receipt { method: Ok(ok_true()) }, attempt: 0 });
    assert_eq!(wait, 0);
    assert_eq!(request.url, "http://stub/decodeTransactionReceipt/0xabc");
    assert_eq!(task.request(&adapter), request);
}

#[test]
fn record_follows_both_calls() {
    let adapter = stub();
    let (task, _, _) = send(Task::start(tx("0xabc", 7), &adapter));
    let (task, _, _) = send(task.on_reply(&adapter, &success()));
    let reply = Reply::Status { code: 200, body: "[]".to_string() };
    let (key, dir, path, record) = store(task.on_reply(&adapter, &reply));
    assert_eq!(key, "abc");
    assert_eq!(dir, "out/7");
    assert_eq!(path, "out/7/abc.json");
    assert_eq!(
        record,
        RRDecodedTransaction {
            from: "0xsender".to_string(),
            to: "0xreceiver".to_string(),
            hash: "0xabc".to_string(),
            block_number: 7,
            input: Some(ok_true()),
            output: Some(serde_json::Value::Array(Vec::new())),
            error: None,
        }
    );
    assert!(!record.is_failure());
}

#[test]
fn transient_failure_repeats_the_call_after_the_delay() {
    let adapter = stub();
    let (task, _, first) = send(Task::start(tx("0xabc", 7), &adapter));
    let (task, wait, request) = send(task.on_reply(&adapter, &Reply::TimedOut));
    assert_eq!((task.attempt, wait), (1, 1));
    assert_eq!(request, first);
    let (task, wait, _) = send(task.on_reply(&adapter, &Reply::Unreachable));
    assert_eq!((task.attempt, wait), (2, 2));
    let (task, wait, _) = send(task.on_reply(&adapter, &Reply::Status { code: 502, body: String::new() }));
    assert_eq!((task.attempt, wait), (3, 4));
    assert_eq!(task.call, Call::Method);
    let (task, wait, request) = send(task.on_reply(&adapter, &success()));
    assert_eq!((task.attempt, wait), (0, 0));
    assert_eq!(request.url, "http://stub/decodeTransactionReceipt/0xabc");
}

#[test]
fn exhausted_retries_fail_the_call_not_the_task() {
    let (_, record) = run_task(Task::start(tx("0xabc", 7), &stub()), &|request: &Request| {
        if request.url.contains("Receipt") {
            success()
        } else {
            Reply::Unreachable
        }
    });
    assert_eq!(record.hash, "0xabc");
    assert_eq!(record.input, None);
    assert_eq!(record.output, Some(ok_true()));
    assert_eq!(record.error, Some(DecodeError::RetriesExhausted));
    assert!(record.is_failure());
}

#[test]
fn attempts_per_call_stop_at_the_limit() {
    let adapter = stub();
    let mut next = Task::start(tx("0xabc", 7), &adapter);
    let mut method_attempts = 0;
    let mut waited = 0;
    loop {
        let (task, wait, _) = send(next);
        if task.call != Call::Method {
            break;
        }
        waited += wait;
        method_attempts += 1;
        next = task.on_reply(&adapter, &Reply::TimedOut);
    }
    assert_eq!(method_attempts, 25);
    assert_eq!(waited, 1 + 2 + 4 + 8 + 20 * 15);
}

#[test]
fn failed_decodes_still_leave_a_record() {
    let mut db = Database::new(None);
    assert!(db.add(tx("0xdead", 9)));
    let mut sink = MemorySink::new();
    let (batch, _) = drain(
        &mut db,
        1,
        &|request: &Request| {
            if request.url.contains("Receipt") {
                Reply::Status { code: 200, body: "<html>".to_string() }
            } else {
                Reply::Status { code: 404, body: "{}".to_string() }
            }
        },
        &mut sink,
    );
    assert_eq!(
        sink.get("dead"),
        Some(&RRDecodedTransaction {
            from: "0xsender".to_string(),
            to: "0xreceiver".to_string(),
            hash: "0xdead".to_string(),
            block_number: 9,
            input: None,
            output: None,
            error: Some(DecodeError::Rejected(404)),
        })
    );
    assert_eq!((batch.claimed, batch.succeeded, batch.failed), (1, 0, 1));
    assert_eq!(batch.phase, Phase::Done);
}

#[test]
fn assemble_keeps_what_succeeded() {
    let record = RRDecodedTransaction::assemble(tx("0xabc", 7), Ok(ok_true()), Err(DecodeError::Malformed));
    assert_eq!(record.input, Some(ok_true()));
    assert_eq!(record.output, None);
    assert_eq!(record.error, Some(DecodeError::Malformed));
    assert_eq!(record.block_number, 7);
    let record = RRDecodedTransaction::assemble(
        tx("0xabc", u32::MAX),
        Err(DecodeError::RetriesExhausted),
        Err(DecodeError::Malformed),
    );
    assert_eq!(record.error, Some(DecodeError::RetriesExhausted));
    assert_eq!(record.block_number, 4294967295);
    assert_eq!(record.hash, "0xabc");
}

#[test]
fn completion_reports_success_only_for_a_written_whole_record() {
    let whole = RRDecodedTransaction::assemble(tx("0xabc", 7), Ok(ok_true()), Ok(ok_true()));
    let marked = RRDecodedTransaction::assemble(tx("0xabc", 7), Ok(ok_true()), Err(DecodeError::Malformed));
    assert_eq!(completion(&whole, true), Event::TaskSucceeded);
    assert_eq!(completion(&whole, false), Event::TaskFailed);
    assert_eq!(completion(&marked, true), Event::TaskFailed);
    assert_eq!(completion(&marked, false), Event::TaskFailed);
}

#[test]
fn end_to_end_three_items_capacity_two() {
    let mut db = Database::new(None);
    for hash in ["h1", "h2", "h3"] {
        assert!(db.add(tx(hash, 1)));
    }
    let mut sink = MemorySink::new();
    let (batch, peak) = drain(&mut db, 2, &|_: &Request| success(), &mut sink);
    assert_eq!(sink.len(), 3);
    for hash in ["h1", "h2", "h3"] {
        let record = sink.get(hash).unwrap();
        assert_eq!(record.hash, hash);
        assert_eq!(record.input, Some(ok_true()));
        assert_eq!(record.output, Some(ok_true()));
        assert_eq!(record.error, None);
    }
    assert_eq!(db.one_transaction(), None);
    assert_eq!(db.estimate_remaining(), 0);
    assert_eq!(peak, 2);
    assert_eq!(batch.phase, Phase::Done);
    assert_eq!((batch.claimed, batch.succeeded, batch.failed), (3, 3, 0));
}

#[test]
fn drain_waits_for_every_task() {
    let mut db = Database::new(None);
    for i in 0..50u32 {
        assert!(db.add(tx(&format!("0x{}", i), i)));
    }
    let mut sink = MemorySink::new();
    let (batch, peak) = drain(&mut db, 5, &|_: &Request| success(), &mut sink);
    assert_eq!(peak, 5);
    assert_eq!(batch.in_flight, 0);
    assert!(batch.exhausted);
    assert_eq!(batch.claimed, 50);
    assert_eq!(batch.succeeded, 50);
    assert_eq!(sink.len(), 50);
}

#[test]
fn default_transaction_is_empty() {
    let t = RRTransaction::default();
    assert_eq!(t, RRTransaction { from: String::new(), to: String::new(), hash: String::new(), block_number: 0 });
}

#[test]
fn transaction_dict_holds_hashes() {
    let dict = RRTransactionDict { transactions: vec!["0x1".to_string(), "0x2".to_string()] };
    assert_eq!(dict.transactions.len(), 2);
    assert_eq!(dict.clone(), dict);
}

#[test]
fn validity_of_a_task_built_by_hand() {
    assert!(Task { tx: tx("0xabc", 7), call: Call::Method, attempt: 0 }.is_wf());
    assert!(Task { tx: tx("0xabc", 7), call: Call::Method, attempt: 24 }.is_wf());
    assert!(!Task { tx: tx("0xabc", 7), call: Call::Method, attempt: 25 }.is_wf());
}

#[test]
fn a_task_takes_at_most_fifty_replies() {
    let adapter = stub();
    let mut next = Task::start(tx("0xabc", 7), &adapter);
    let mut replies = 0;
    let record = loop {
        match next {
            Next::Send { task, .. } => {
                replies += 1;
                next = task.on_reply(&adapter, &Reply::Status { code: 500, body: String::new() });
            }
            Next::Store { record, .. } => break record,
        }
    };
    assert_eq!(replies, 50);
    assert_eq!(record.hash, "0xabc");
    assert_eq!(record.input, None);
    assert_eq!(record.output, None);
    assert_eq!(record.error, Some(DecodeError::RetriesExhausted));
}
