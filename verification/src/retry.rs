//! The retry policy of the decode client: which replies are retried, how long
//! to wait before the next attempt, and when to give up.

use vstd::prelude::*;
use vstd::arithmetic::power2::{pow2, lemma_pow2_strictly_increases, lemma2_to64};
use crate::json::{parsed_json, read_body};

verus! {

/// The largest number of attempts made for one call.
pub const MAX_ATTEMPTS: u32 = 25;

/// Seconds waited after the first failed attempt.
pub const INITIAL_INTERVAL_SECS: u64 = 1;

/// The ceiling on the seconds waited between two attempts.
pub const MAX_INTERVAL_SECS: u64 = 15;

/// Seconds between attempt `k` and attempt `k + 1` (attempts count from 0):
/// one second doubled `k` times, capped at fifteen.
pub open spec fn spec_backoff_secs(k: nat) -> nat {
    let doubled: nat = INITIAL_INTERVAL_SECS as nat * pow2(k);
    if doubled < MAX_INTERVAL_SECS {
        doubled
    } else {
        MAX_INTERVAL_SECS as nat
    }
}

/// The delays written out: 1, 2, 4 and 8 seconds after the first four
/// attempts, and 15 seconds after every later one.
pub proof fn lemma_backoff_values(k: nat)
    ensures
        spec_backoff_secs(k) == if k == 0 {
            1nat
        } else if k == 1 {
            2nat
        } else if k == 2 {
            4nat
        } else if k == 3 {
            8nat
        } else {
            15nat
        },
{
    lemma2_to64();
    if k > 4 {
        lemma_pow2_strictly_increases(4, k);
    }
}

/// The seconds waited in all by a call whose first `failures` attempts failed
/// transiently and were retried.
pub open spec fn spec_total_backoff(failures: nat) -> nat
    decreases failures,
{
    if failures == 0 {
        0
    } else {
        spec_total_backoff((failures - 1) as nat) + spec_backoff_secs((failures - 1) as nat)
    }
}

/// The waiting of one call is bounded: a call is retried at most
/// `MAX_ATTEMPTS - 1` times, and all its delays together come to at most 315
/// seconds.
pub proof fn lemma_total_backoff_bounded(failures: nat)
    requires
        failures < MAX_ATTEMPTS,
    ensures
        spec_total_backoff(failures) <= 315,
        spec_total_backoff(failures) <= 15 * failures,
        failures >= 4 ==> spec_total_backoff(failures) == 15 * failures - 45,
    decreases failures,
{
    if failures > 0 {
        lemma_backoff_values((failures - 1) as nat);
        lemma_total_backoff_bounded((failures - 1) as nat);
        if failures == 4 {
            lemma_backoff_values(0);
            lemma_backoff_values(1);
            lemma_backoff_values(2);
            assert(spec_total_backoff(3) == spec_total_backoff(2) + spec_backoff_secs(2));
            assert(spec_total_backoff(2) == spec_total_backoff(1) + spec_backoff_secs(1));
            assert(spec_total_backoff(1) == spec_total_backoff(0) + spec_backoff_secs(0));
        }
    }
}

/// The delay in seconds between attempt `k` and attempt `k + 1`.
pub fn backoff_secs(k: u32) -> (secs: u64)
    ensures
        secs == spec_backoff_secs(k as nat),
        INITIAL_INTERVAL_SECS <= secs <= MAX_INTERVAL_SECS,
{
    proof {
        lemma_backoff_values(k as nat);
    }
    if k == 0 {
        1
    } else if k == 1 {
        2
    } else if k == 2 {
        4
    } else if k == 3 {
        8
    } else {
        MAX_INTERVAL_SECS
    }
}

/// What came back from one attempt at a call of the decoding service.
#[derive(Debug, Clone, PartialEq, Eq)]
pub enum Reply {
    /// No response: the network failed or the connection was reset.
    Unreachable,
    /// No response within the time allowed.
    TimedOut,
    /// A response, with its status code and its body.
    Status { code: u16, body: String },
}

/// Why a decode call produced no value.
#[derive(Debug, PartialEq, Eq, Clone, Copy)]
pub enum DecodeError {
    /// Every attempt that the policy allows failed transiently.
    RetriesExhausted,
    /// The service answered with a client-error status, which is final.
    Rejected(u16),
    /// The response body is not JSON.
    Malformed,
}

impl DecodeError {
    /// A short text that names the failure.
    pub open spec fn spec_label(&self) -> Seq<char> {
        match self {
            DecodeError::RetriesExhausted => "retries exhausted"@,
            DecodeError::Rejected(_) => "rejected by the service"@,
            DecodeError::Malformed => "malformed response"@,
        }
    }

    /// A short text that names the failure, for the record of a failed task.
    pub fn label(&self) -> (text: &'static str)
        ensures
            text@ == self.spec_label(),
    {
        match self {
            DecodeError::RetriesExhausted => "retries exhausted",
            DecodeError::Rejected(_) => "rejected by the service",
            DecodeError::Malformed => "malformed response",
        }
    }
}

/// What to do after one attempt.
#[derive(Debug, PartialEq)]
pub enum Step {
    /// The call is over and gave this value.
    Done(serde_json::Value),
    /// Wait this many seconds, then make the next attempt.
    RetryAfter { secs: u64 },
    /// The call is over and failed.
    Failed(DecodeError),
}

/// A reply that a later attempt may mend: no response at all, or a status in
/// the 5xx class.
pub open spec fn is_transient(reply: Reply) -> bool {
    match reply {
        Reply::Unreachable => true,
        Reply::TimedOut => true,
        Reply::Status { code, .. } => 500 <= code <= 599,
    }
}

/// A reply with a status in the 4xx class.
pub open spec fn is_rejected(reply: Reply) -> bool {
    match reply {
        Reply::Status { code, .. } => 400 <= code <= 499,
        _ => false,
    }
}

/// The body of a reply read as JSON; `None` where there is no body or it is
/// malformed.
pub open spec fn reply_json(reply: Reply) -> Option<serde_json::Value> {
    match reply {
        Reply::Status { body, .. } => parsed_json(body@),
        _ => None,
    }
}

/// The step after a transient failure of attempt `attempt`.
pub open spec fn spec_after_transient(attempt: nat) -> Step {
    if attempt + 1 < MAX_ATTEMPTS {
        Step::RetryAfter { secs: spec_backoff_secs(attempt) as u64 }
    } else {
        Step::Failed(DecodeError::RetriesExhausted)
    }
}

/// The step after attempt `attempt` (counted from 0) came back with `reply`,
/// whose body reads as `body`.
///
/// An attempt beyond the last allowed one fails whatever came back. A transient
/// reply is retried while attempts are left. A 4xx status fails at once. Any
/// other response succeeds with its body, or fails where the body is malformed.
pub open spec fn spec_resolve(attempt: nat, reply: Reply, body: Option<serde_json::Value>) -> Step {
    if attempt >= MAX_ATTEMPTS {
        Step::Failed(DecodeError::RetriesExhausted)
    } else {
        match reply {
            Reply::Unreachable => spec_after_transient(attempt),
            Reply::TimedOut => spec_after_transient(attempt),
            Reply::Status { code, .. } => {
                if 500 <= code <= 599 {
                    spec_after_transient(attempt)
                } else if 400 <= code <= 499 {
                    Step::Failed(DecodeError::Rejected(code))
                } else {
                    match body {
                        Some(v) => Step::Done(v),
                        None => Step::Failed(DecodeError::Malformed),
                    }
                }
            },
        }
    }
}

/// The step after attempt `attempt` came back with `reply`.
pub open spec fn spec_on_reply(attempt: nat, reply: Reply) -> Step {
    spec_resolve(attempt, reply, reply_json(reply))
}

/// Decides the step after attempt `attempt` (counted from 0), given the reply
/// and its body already read as JSON (`None` for a malformed body).
pub fn resolve(attempt: u32, reply: &Reply, body: Option<serde_json::Value>) -> (step: Step)
    ensures
        step == spec_resolve(attempt as nat, *reply, body),
{
    if attempt >= MAX_ATTEMPTS {
        return Step::Failed(DecodeError::RetriesExhausted);
    }
    match reply {
        Reply::Unreachable => after_transient(attempt),
        Reply::TimedOut => after_transient(attempt),
        Reply::Status { code, .. } => {
            let status: u16 = *code;
            if 500 <= status && status <= 599 {
                after_transient(attempt)
            } else if 400 <= status && status <= 499 {
                Step::Failed(DecodeError::Rejected(status))
            } else {
                match body {
                    Some(v) => Step::Done(v),
                    None => Step::Failed(DecodeError::Malformed),
                }
            }
        },
    }
}

/// The step after a transient failure of attempt `attempt`: another attempt
/// after the backoff delay while fewer than `MAX_ATTEMPTS` were made, else
/// failure.
pub fn after_transient(attempt: u32) -> (step: Step)
    ensures
        step == spec_after_transient(attempt as nat),
{
    if attempt < MAX_ATTEMPTS - 1 {
        Step::RetryAfter { secs: backoff_secs(attempt) }
    } else {
        Step::Failed(DecodeError::RetriesExhausted)
    }
}

/// Decides the step after attempt `attempt` (counted from 0) came back with
/// `reply`, reading the body of a response as JSON.
pub fn on_reply(attempt: u32, reply: &Reply) -> (step: Step)
    ensures
        step == spec_on_reply(attempt as nat, *reply),
{
    let body = match reply {
        Reply::Status { body, .. } => read_body(body.as_str()),
        _ => None,
    };
    resolve(attempt, reply, body)
}

/// The outcome of a call whose attempts, from attempt `attempt` on, come back
/// with `replies` in order; `None` where the replies run out while the policy
/// still asks for another attempt.
pub open spec fn spec_replay(replies: Seq<Reply>, attempt: nat) -> Option<Result<serde_json::Value, DecodeError>>
    decreases replies.len(),
{
    if replies.len() == 0 {
        None
    } else {
        match spec_on_reply(attempt, replies[0]) {
            Step::Done(v) => Some(Ok(v)),
            Step::Failed(e) => Some(Err(e)),
            Step::RetryAfter { .. } => spec_replay(replies.drop_first(), attempt + 1),
        }
    }
}

/// Runs one call against a recorded exchange: the replies are taken in order,
/// one per attempt, until the policy ends the call. Returns the call's outcome,
/// or `None` where the replies run out first.
pub fn replay(replies: &Vec<Reply>) -> (outcome: Option<Result<serde_json::Value, DecodeError>>)
    ensures
        outcome == spec_replay(replies@, 0),
{
    let mut i: usize = 0;
    let mut attempt: u32 = 0;
    proof {
        assert(replies@.skip(0) =~= replies@);
    }
    while i < replies.len()
        invariant
            i <= replies.len(),
            attempt <= MAX_ATTEMPTS,
            spec_replay(replies@, 0) == spec_replay(replies@.skip(i as int), attempt as nat),
        decreases replies.len() - i,
    {
        proof {
            assert(replies@.skip(i as int)[0] == replies@[i as int]);
            assert(replies@.skip(i as int).drop_first() =~= replies@.skip(i + 1));
        }
        match on_reply(attempt, &replies[i]) {
            Step::Done(v) => {
                return Some(Ok(v));
            },
            Step::Failed(e) => {
                return Some(Err(e));
            },
            Step::RetryAfter { .. } => {
                attempt = attempt + 1;
                i = i + 1;
            },
        }
    }
    None
}

/// Transient replies are passed over while attempts are left: where the first
/// `n` replies are transient and attempt `attempt + n` is still allowed, the
/// outcome is that of the remaining replies from attempt `attempt + n` on.
pub proof fn lemma_replay_skips_transient(replies: Seq<Reply>, attempt: nat, n: nat)
    requires
        n <= replies.len(),
        forall|i: int| 0 <= i < n ==> is_transient(#[trigger] replies[i]),
        attempt + n < MAX_ATTEMPTS,
    ensures
        spec_replay(replies, attempt) == spec_replay(replies.skip(n as int), attempt + n),
    decreases n,
{
    if n == 0 {
        assert(replies.skip(0) =~= replies);
    } else {
        let rest = replies.drop_first();
        assert forall|i: int| 0 <= i < n - 1 implies is_transient(#[trigger] rest[i]) by {
            assert(rest[i] == replies[i + 1]);
        }
        lemma_replay_skips_transient(rest, attempt + 1, (n - 1) as nat);
        assert(rest.skip(n - 1) =~= replies.skip(n as int));
    }
}

/// Against a service that fails transiently `n` times and then answers with a
/// well-formed body, a call succeeds with that body's value if `n` is below
/// `MAX_ATTEMPTS`, and fails with `RetriesExhausted` otherwise.
pub proof fn lemma_retry_bound(replies: Seq<Reply>, n: nat, value: serde_json::Value)
    requires
        n < replies.len(),
        forall|i: int| 0 <= i < n ==> is_transient(#[trigger] replies[i]),
        !is_transient(replies[n as int]),
        !is_rejected(replies[n as int]),
        reply_json(replies[n as int]) == Some(value),
    ensures
        n < MAX_ATTEMPTS ==> spec_replay(replies, 0) == Some(Ok::<serde_json::Value, DecodeError>(value)),
        n >= MAX_ATTEMPTS ==> spec_replay(replies, 0) == Some(Err::<serde_json::Value, DecodeError>(DecodeError::RetriesExhausted)),
{
    if n < MAX_ATTEMPTS {
        lemma_replay_skips_transient(replies, 0, n);
        assert(replies.skip(n as int)[0] == replies[n as int]);
    } else {
        lemma_replay_skips_transient(replies, 0, 24);
        assert(replies.skip(24)[0] == replies[24]);
    }
}

} // verus!
