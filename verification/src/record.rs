//! The records that pass through a task: the pending transaction that was
//! claimed, and the decoded transaction that is written to the sink.

use vstd::prelude::*;
use crate::retry::DecodeError;

verus! {

/// A transaction hash, as a hex string.
pub type RRTransactionHash = String;

/// A pending transaction: one unit of work.
#[derive(Debug, Clone, PartialEq, Eq)]
pub struct Transaction {
    /// The sender's address.
    pub from: String,
    /// The receiver's address.
    pub to: String,
    /// The transaction's hash, which identifies it.
    pub hash: String,
    /// The number of the block that holds the transaction.
    pub block: u32,
    /// When the transaction was queued, in milliseconds since the Unix epoch.
    pub created_at: Option<i64>,
}

/// A list of transaction hashes.
#[derive(Debug, Clone, PartialEq, Eq)]
pub struct RRTransactionDict {
    /// The hashes, in the order given.
    pub transactions: Vec<RRTransactionHash>,
}

/// A transaction as the decoding service names its fields.
#[derive(Debug, Clone, PartialEq, Eq)]
pub struct RRTransaction {
    /// The sender's address.
    pub from: String,
    /// The receiver's address.
    pub to: String,
    /// The transaction's hash.
    pub hash: String,
    /// The number of the block that holds the transaction.
    pub block_number: u64,
}

impl Default for RRTransaction {
    /// The empty transaction: empty strings and block number 0.
    fn default() -> (r: RRTransaction)
        ensures
            r.from@ == Seq::<char>::empty(),
            r.to@ == Seq::<char>::empty(),
            r.hash@ == Seq::<char>::empty(),
            r.block_number == 0,
    {
        RRTransaction { from: String::new(), to: String::new(), hash: String::new(), block_number: 0 }
    }
}

/// A decoded transaction: what a task writes to the sink.
#[derive(Debug, PartialEq)]
pub struct RRDecodedTransaction {
    /// The sender's address.
    pub from: String,
    /// The receiver's address.
    pub to: String,
    /// The transaction's hash, from which the sink key is derived.
    pub hash: RRTransactionHash,
    /// The number of the block that holds the transaction.
    pub block_number: u64,
    /// The decoded method call; absent where that decode call failed.
    pub input: Option<serde_json::Value>,
    /// The decoded receipt; absent where that decode call failed.
    pub output: Option<serde_json::Value>,
    /// Why a decode call failed: the method call's failure where it failed,
    /// else the receipt call's. Absent where both succeeded.
    pub error: Option<DecodeError>,
}

/// The value of a decode call, absent where the call failed.
pub open spec fn spec_payload(outcome: Result<serde_json::Value, DecodeError>) -> Option<serde_json::Value> {
    match outcome {
        Ok(v) => Some(v),
        Err(_) => None,
    }
}

/// The failure that a record reports for two decode calls: the first one that
/// failed, in the order method, receipt.
pub open spec fn spec_failure(
    method: Result<serde_json::Value, DecodeError>,
    receipt: Result<serde_json::Value, DecodeError>,
) -> Option<DecodeError> {
    match method {
        Err(e) => Some(e),
        Ok(_) => match receipt {
            Err(e) => Some(e),
            Ok(_) => None,
        },
    }
}

/// The record of a transaction and the outcomes of its two decode calls: the
/// transaction's own fields, each call's value where it succeeded, and the
/// first failure where one failed.
pub open spec fn spec_assemble(
    tx: Transaction,
    method: Result<serde_json::Value, DecodeError>,
    receipt: Result<serde_json::Value, DecodeError>,
) -> RRDecodedTransaction {
    RRDecodedTransaction {
        from: tx.from,
        to: tx.to,
        hash: tx.hash,
        block_number: tx.block as u64,
        input: spec_payload(method),
        output: spec_payload(receipt),
        error: spec_failure(method, receipt),
    }
}

impl RRDecodedTransaction {
    /// Whether the record marks a failed task.
    pub open spec fn spec_is_failure(&self) -> bool {
        self.error is Some
    }

    /// Whether the record marks a failed task.
    pub fn is_failure(&self) -> (b: bool)
        ensures
            b == self.spec_is_failure(),
    {
        self.error.is_some()
    }

    /// Builds the record of a claimed transaction from the outcomes of its two
    /// decode calls. A record is built whatever the outcomes: a failed call
    /// leaves its payload absent and is named in `error`, so a claimed
    /// transaction always leaves a record that carries its hash.
    pub fn assemble(
        tx: Transaction,
        method: Result<serde_json::Value, DecodeError>,
        receipt: Result<serde_json::Value, DecodeError>,
    ) -> (record: RRDecodedTransaction)
        ensures
            record == spec_assemble(tx, method, receipt),
    {
        let (input, first) = match method {
            Ok(v) => (Some(v), None),
            Err(e) => (None, Some(e)),
        };
        let (output, second) = match receipt {
            Ok(v) => (Some(v), None),
            Err(e) => (None, Some(e)),
        };
        let error = match first {
            Some(e) => Some(e),
            None => second,
        };
        RRDecodedTransaction {
            from: tx.from,
            to: tx.to,
            hash: tx.hash,
            block_number: tx.block as u64,
            input,
            output,
            error,
        }
    }
}

/// Failure visibility: whatever the two decode calls came to, the record
/// carries the hash of the claimed transaction; a payload is absent exactly
/// where its call failed, and the record marks a failure exactly where one of
/// them did. Where both failed, both payloads are absent and the failure is
/// the method call's.
pub proof fn lemma_failure_is_visible(
    tx: Transaction,
    method: Result<serde_json::Value, DecodeError>,
    receipt: Result<serde_json::Value, DecodeError>,
)
    ensures
        spec_assemble(tx, method, receipt).hash == tx.hash,
        spec_assemble(tx, method, receipt).input is None <==> method is Err,
        spec_assemble(tx, method, receipt).output is None <==> receipt is Err,
        spec_assemble(tx, method, receipt).spec_is_failure() <==> (method is Err || receipt is Err),
        method is Err ==> spec_assemble(tx, method, receipt).error == Some(method->Err_0),
{
}

} // verus!
