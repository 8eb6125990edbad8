//! The work source: a backlog of pending transactions from which each item is
//! claimed at most once.
//!
//! A claim removes the item that it returns, in one step. Claims made by
//! several workers reach the backlog one after the other, so what they get is
//! what a sequence of claims gets.

use vstd::prelude::*;
use vstd::string::StringExecFns;
use crate::record::Transaction;

verus! {

/// The name of the backlog where none is given.
pub const DEFAULT_NAME: &'static str = "ronin";

/// The name of the collection that holds the pending transactions.
pub const COLLECTION: &'static str = "transactions";

/// The name of a backlog: the one given, or `DEFAULT_NAME`.
pub open spec fn spec_backlog_name(db_name: Option<&str>) -> Seq<char> {
    match db_name {
        Some(name) => name@,
        None => DEFAULT_NAME@,
    }
}

/// The name of a backlog: the one given, or `DEFAULT_NAME`.
pub fn backlog_name(db_name: Option<&str>) -> (name: String)
    ensures
        name@ == spec_backlog_name(db_name),
{
    match db_name {
        Some(name) => String::from_str(name),
        None => String::from_str(DEFAULT_NAME),
    }
}

/// No two items carry the same hash.
pub open spec fn distinct_hashes(items: Seq<Transaction>) -> bool {
    forall|i: int, j: int| 0 <= i < j < items.len() ==> items[i].hash@ != items[j].hash@
}

/// Whether an item with this hash is among the items.
pub open spec fn holds_hash(items: Seq<Transaction>, hash: Seq<char>) -> bool {
    exists|i: int| 0 <= i < items.len() && items[i].hash@ == hash
}

/// What `attempts` claims in a row return from a backlog: its items from the
/// front, one per claim, until the claims or the backlog run out.
pub open spec fn spec_claimed(pending: Seq<Transaction>, attempts: nat) -> Seq<Transaction>
    decreases attempts,
{
    if attempts == 0 || pending.len() == 0 {
        Seq::empty()
    } else {
        seq![pending[0]] + spec_claimed(pending.drop_first(), (attempts - 1) as nat)
    }
}

/// What `attempts` claims in a row leave in a backlog.
pub open spec fn spec_left(pending: Seq<Transaction>, attempts: nat) -> Seq<Transaction>
    decreases attempts,
{
    if attempts == 0 || pending.len() == 0 {
        pending
    } else {
        spec_left(pending.drop_first(), (attempts - 1) as nat)
    }
}

/// A backlog of pending transactions, held in memory.
pub struct Database {
    name: String,
    transactions: Vec<Transaction>,
}

impl Database {
    /// The name of the backlog.
    pub closed spec fn spec_name(&self) -> Seq<char> {
        self.name@
    }

    /// The pending items, the next one to be claimed first.
    pub closed spec fn pending(&self) -> Seq<Transaction> {
        self.transactions@
    }

    /// The invariant of a backlog: a hash is pending at most once.
    pub open spec fn wf(&self) -> bool {
        distinct_hashes(self.pending())
    }

    /// An empty backlog with the given name, or `DEFAULT_NAME` where none is
    /// given.
    pub fn new(db_name: Option<&str>) -> (db: Database)
        ensures
            db.wf(),
            db.pending() == Seq::<Transaction>::empty(),
            db.spec_name() == spec_backlog_name(db_name),
    {
        Database { name: backlog_name(db_name), transactions: Vec::new() }
    }

    /// The name of the backlog.
    pub fn name(&self) -> (name: &str)
        ensures
            name@ == self.spec_name(),
    {
        self.name.as_str()
    }

    /// Queues a transaction behind those that are pending. One whose hash is
    /// already pending is not queued; the result says whether it was.
    pub fn add(&mut self, tx: Transaction) -> (added: bool)
        requires
            old(self).wf(),
        ensures
            final(self).wf(),
            final(self).spec_name() == old(self).spec_name(),
            added == !holds_hash(old(self).pending(), tx.hash@),
            added ==> final(self).pending() == old(self).pending().push(tx),
            !added ==> final(self).pending() == old(self).pending(),
    {
        let mut i: usize = 0;
        while i < self.transactions.len()
            invariant
                i <= self.transactions.len(),
                *self == *old(self),
                self.wf(),
                forall|k: int| 0 <= k < i ==> self.transactions@[k].hash@ != tx.hash@,
            decreases self.transactions.len() - i,
        {
            if self.transactions[i].hash == tx.hash {
                return false;
            }
            i = i + 1;
        }
        self.transactions.push(tx);
        true
    }

    /// Claims the next pending transaction: removes it from the backlog and
    /// returns it. Returns `None`, and changes nothing, where none is pending.
    pub fn one_transaction(&mut self) -> (claimed: Option<Transaction>)
        requires
            old(self).wf(),
        ensures
            final(self).wf(),
            final(self).spec_name() == old(self).spec_name(),
            claimed is None <==> old(self).pending().len() == 0,
            claimed is None ==> final(self).pending() == old(self).pending(),
            claimed matches Some(tx) ==> tx == old(self).pending()[0] && final(self).pending()
                == old(self).pending().drop_first() && !holds_hash(final(self).pending(), tx.hash@),
    {
        if self.transactions.len() == 0 {
            None
        } else {
            let tx = self.transactions.remove(0);
            proof {
                assert(self.transactions@ =~= old(self).transactions@.drop_first());
            }
            Some(tx)
        }
    }

    /// Makes up to `attempts` claims in a row and returns what they gave, in
    /// the order claimed. It stops early where the backlog runs out.
    pub fn claim_up_to(&mut self, attempts: usize) -> (claimed: Vec<Transaction>)
        requires
            old(self).wf(),
        ensures
            final(self).wf(),
            final(self).spec_name() == old(self).spec_name(),
            claimed@ == spec_claimed(old(self).pending(), attempts as nat),
            final(self).pending() == spec_left(old(self).pending(), attempts as nat),
    {
        let mut claimed: Vec<Transaction> = Vec::new();
        let mut made: usize = 0;
        proof {
            assert(claimed@ + spec_claimed(self.pending(), attempts as nat) =~= spec_claimed(
                self.pending(),
                attempts as nat,
            ));
        }
        while made < attempts
            invariant
                self.wf(),
                made <= attempts,
                self.spec_name() == old(self).spec_name(),
                claimed@ + spec_claimed(self.pending(), (attempts - made) as nat) == spec_claimed(
                    old(self).pending(),
                    attempts as nat,
                ),
                spec_left(self.pending(), (attempts - made) as nat) == spec_left(
                    old(self).pending(),
                    attempts as nat,
                ),
            decreases attempts - made,
        {
            let ghost before = self.pending();
            let ghost had = claimed@;
            match self.one_transaction() {
                Some(tx) => {
                    claimed.push(tx);
                    made = made + 1;
                    proof {
                        assert(had.push(tx) + spec_claimed(self.pending(), (attempts - made) as nat) =~= had
                            + spec_claimed(before, (attempts - made + 1) as nat));
                    }
                },
                None => {
                    made = attempts;
                },
            }
        }
        claimed
    }

    /// The number of pending transactions, for display.
    pub fn estimate_remaining(&self) -> (n: u64)
        ensures
            n == self.pending().len(),
    {
        self.transactions.len() as u64
    }
}

/// Claims in a row return a prefix of the backlog and leave the rest.
pub proof fn lemma_claims_take_prefix(pending: Seq<Transaction>, attempts: nat)
    ensures
        attempts <= pending.len() ==> spec_claimed(pending, attempts) == pending.take(attempts as int)
            && spec_left(pending, attempts) == pending.skip(attempts as int),
        attempts > pending.len() ==> spec_claimed(pending, attempts) == pending && spec_left(
            pending,
            attempts,
        ) == Seq::<Transaction>::empty(),
    decreases attempts,
{
    if attempts == 0 {
        assert(pending.take(0) =~= Seq::<Transaction>::empty());
        assert(pending.skip(0) =~= pending);
    } else if pending.len() == 0 {
        assert(pending =~= Seq::<Transaction>::empty());
    } else {
        let rest = pending.drop_first();
        lemma_claims_take_prefix(rest, (attempts - 1) as nat);
        if attempts <= pending.len() {
            assert(seq![pending[0]] + rest.take(attempts - 1) =~= pending.take(attempts as int));
            assert(rest.skip(attempts - 1) =~= pending.skip(attempts as int));
        } else {
            assert(seq![pending[0]] + rest =~= pending);
        }
    }
}

/// At most one claim: of a backlog in which no hash is pending twice, any
/// number of claims returns items of which no two carry the same hash, as many
/// as there were claims or pending items, whichever is fewer; and no claimed
/// hash is still pending afterwards.
pub proof fn lemma_at_most_one_claim(pending: Seq<Transaction>, attempts: nat)
    requires
        distinct_hashes(pending),
    ensures
        distinct_hashes(spec_claimed(pending, attempts)),
        spec_claimed(pending, attempts).len() == if attempts <= pending.len() {
            attempts
        } else {
            pending.len()
        },
        spec_claimed(pending, attempts) + spec_left(pending, attempts) == pending,
        forall|i: int|
            0 <= i < spec_claimed(pending, attempts).len() ==> !holds_hash(
                spec_left(pending, attempts),
                #[trigger] spec_claimed(pending, attempts)[i].hash@,
            ),
{
    lemma_claims_take_prefix(pending, attempts);
    let claimed = spec_claimed(pending, attempts);
    let left = spec_left(pending, attempts);
    if attempts <= pending.len() {
        assert(pending.take(attempts as int) + pending.skip(attempts as int) =~= pending);
    } else {
        assert(pending + Seq::<Transaction>::empty() =~= pending);
    }
    assert forall|i: int| 0 <= i < claimed.len() implies !holds_hash(left, #[trigger] claimed[i].hash@) by {
        if holds_hash(left, claimed[i].hash@) {
            let j = choose|j: int| 0 <= j < left.len() && left[j].hash@ == claimed[i].hash@;
            assert(pending[i] == claimed[i]);
            assert(pending[claimed.len() + j] == left[j]);
        }
    }
}

} // verus!
