//! In-memory stores for submissions and execution records.
//!
//! The submission store is the hash-keyed record of transactions as
//! submitted, pre-execution; the execution record store holds one outcome per
//! transaction of each sealed block. Reconciliation and projection take the
//! stores' output as already-fetched values, so these stores are the
//! capability objects handed to them.
use vstd::prelude::*;
use crate::records::{
    BlockNumber, ExecutedTx, InsertTx, NewExecutedTransaction, ReadTx, ReadTxV,
    StoredExecutedTransaction, StoredExecutedTransactionV,
};
use crate::tx::opt_view;
use crate::Fault;

verus! {

/// Whether some stored submission already carries this hash.
pub open spec fn contains_hash(s: Seq<ReadTxV>, h: Seq<u8>) -> bool {
    exists|i: int| 0 <= i < s.len() && (#[trigger] s[i]).hash == h
}

/// Whether some stored submission carries this record's hash but a different
/// payload: two different transactions hashed identically, which is
/// corruption.
pub open spec fn conflicts(s: Seq<ReadTxV>, rec: ReadTxV) -> bool {
    exists|i: int| 0 <= i < s.len() && (#[trigger] s[i]).hash == rec.hash && s[i].tx != rec.tx
}

/// The stored submission carrying this hash, when one is stored. Under the
/// store invariant the hash is unique, so this is the one record an insert
/// put there.
pub open spec fn spec_lookup(s: Seq<ReadTxV>, h: Seq<u8>) -> Option<ReadTxV> {
    if contains_hash(s, h) {
        let i = choose|i: int| 0 <= i < s.len() && (#[trigger] s[i]).hash == h;
        Some(s[i])
    } else {
        None
    }
}

/// The store contents after an insert: unchanged when the hash is already
/// present, extended by the record otherwise.
pub open spec fn spec_insert(s: Seq<ReadTxV>, rec: ReadTxV) -> Seq<ReadTxV> {
    if contains_hash(s, rec.hash) {
        s
    } else {
        s.push(rec)
    }
}

/// Byte-string equality.
fn bytes_eq(a: &Vec<u8>, b: &Vec<u8>) -> (r: bool)
    ensures
        r == (a@ == b@),
{
    if a.len() != b.len() {
        return false;
    }
    let mut i: usize = 0;
    while i < a.len()
        invariant
            i <= a@.len(),
            a@.len() == b@.len(),
            a@.len() == a.len(),
            forall|k: int| 0 <= k < i ==> a@[k] == b@[k],
        decreases a@.len() - i,
    {
        if a[i] != b[i] {
            return false;
        }
        i = i + 1;
    }
    proof {
        assert(a@ =~= b@);
    }
    true
}

/// Durable, hash-keyed record of transactions as submitted, pre-execution.
pub struct SubmissionStore {
    txs: Vec<ReadTx>,
}

impl View for SubmissionStore {
    type V = Seq<ReadTxV>;

    closed spec fn view(&self) -> Seq<ReadTxV> {
        self.txs@.map_values(|t: ReadTx| t@)
    }
}

impl SubmissionStore {
    /// A given hash is stored at most once.
    pub open spec fn wf(&self) -> bool {
        forall|i: int, j: int|
            0 <= i < j < self@.len() ==> (#[trigger] self@[i]).hash != (#[trigger] self@[j]).hash
    }

    /// An empty store.
    pub fn new() -> (r: SubmissionStore)
        ensures
            r@ == Seq::<ReadTxV>::empty(),
            r.wf(),
    {
        let r = SubmissionStore { txs: Vec::new() };
        proof {
            assert(r@ =~= Seq::<ReadTxV>::empty());
        }
        r
    }

    /// Number of stored submissions.
    pub fn len(&self) -> (r: usize)
        ensures
            r == self@.len(),
    {
        self.txs.len()
    }

    /// Records a submission at the given time. Idempotent on the hash: a
    /// hash already present with the same payload is a no-op, never a
    /// failure and never an overwrite. The same hash with a different
    /// payload fails with `ConflictingSubmission` and leaves the store
    /// unchanged.
    #[verifier::loop_isolation(false)]
    pub fn insert(&mut self, tx: InsertTx, created_at: i64) -> (r: Result<(), Fault>)
        requires
            old(self).wf(),
        ensures
            final(self).wf(),
            match r {
                Ok(()) => final(self)@ == spec_insert(
                    old(self)@,
                    (ReadTxV {
                        hash: tx.hash@,
                        primary_account_address: tx.primary_account_address@,
                        nonce: tx.nonce,
                        tx: tx.tx@,
                        created_at,
                    }),
                ),
                Err(f) => f == Fault::ConflictingSubmission && final(self)@ == old(self)@,
            },
            r is Err <==> conflicts(
                old(self)@,
                (ReadTxV {
                    hash: tx.hash@,
                    primary_account_address: tx.primary_account_address@,
                    nonce: tx.nonce,
                    tx: tx.tx@,
                    created_at,
                }),
            ),
    {
        let ghost rec = ReadTxV {
            hash: tx.hash@,
            primary_account_address: tx.primary_account_address@,
            nonce: tx.nonce,
            tx: tx.tx@,
            created_at,
        };
        let mut i: usize = 0;
        while i < self.txs.len()
            invariant
                *self == *old(self),
                old(self).wf(),
                i <= self.txs@.len(),
                self.txs@.len() == self.txs.len(),
                forall|k: int| 0 <= k < i ==> (#[trigger] self@[k]).hash != rec.hash,
            decreases self.txs@.len() - i,
        {
            proof {
                assert(self@[i as int] == self.txs@[i as int]@);
            }
            if bytes_eq(&self.txs[i].hash, &tx.hash) {
                proof {
                    assert(self@[i as int].hash == rec.hash);
                    assert(contains_hash(self@, rec.hash));
                }
                if bytes_eq(&self.txs[i].tx, &tx.tx) {
                    proof {
                        assert forall|j: int|
                            0 <= j < self@.len() && (#[trigger] self@[j]).hash
                                == rec.hash implies self@[j].tx == rec.tx by {
                            if j != i {
                                assert(self@[j].hash != self@[i as int].hash);
                            }
                        }
                    }
                    return Ok(());
                } else {
                    proof {
                        assert(conflicts(self@, rec));
                    }
                    return Err(Fault::ConflictingSubmission);
                }
            }
            i = i + 1;
        }
        proof {
            assert(!contains_hash(self@, rec.hash));
        }
        let ghost before = self@;
        self.txs.push(
            ReadTx {
                hash: tx.hash,
                primary_account_address: tx.primary_account_address,
                nonce: tx.nonce,
                tx: tx.tx,
                created_at,
            },
        );
        proof {
            assert(self@ =~= before.push(rec));
        }
        Ok(())
    }

    /// Point read by hash; no side effects.
    #[verifier::loop_isolation(false)]
    pub fn lookup(&self, hash: &Vec<u8>) -> (r: Option<&ReadTx>)
        ensures
            match r {
                Some(t) => self@.contains(t@) && t@.hash == hash@,
                None => !contains_hash(self@, hash@),
            },
            self.wf() ==> opt_view(r) == spec_lookup(self@, hash@),
    {
        let mut i: usize = 0;
        while i < self.txs.len()
            invariant
                i <= self.txs@.len(),
                self.txs@.len() == self.txs.len(),
                forall|k: int| 0 <= k < i ==> (#[trigger] self@[k]).hash != hash@,
            decreases self.txs@.len() - i,
        {
            if bytes_eq(&self.txs[i].hash, hash) {
                proof {
                    assert(self@[i as int] == self.txs@[i as int]@);
                    assert(contains_hash(self@, hash@));
                    if self.wf() {
                        let j = choose|j: int|
                            0 <= j < self@.len() && (#[trigger] self@[j]).hash == hash@;
                        if j < i as int {
                            assert(self@[j].hash != self@[i as int].hash);
                        }
                        if (i as int) < j {
                            assert(self@[i as int].hash != self@[j].hash);
                        }
                    }
                }
                return Some(&self.txs[i]);
            }
            i = i + 1;
        }
        None
    }
}

/// Inserting the same submission twice leaves the store in the same state as
/// inserting it once.
pub proof fn lemma_insert_idempotent(s: Seq<ReadTxV>, rec: ReadTxV)
    ensures
        spec_insert(spec_insert(s, rec), rec) == spec_insert(s, rec),
{
    let s1 = spec_insert(s, rec);
    if !contains_hash(s, rec.hash) {
        assert(s1 == s.push(rec));
        assert(s1[s.len() as int] == rec);
        assert(contains_hash(s1, rec.hash));
    }
}

/// Whether some execution record already carries this transaction hash.
pub open spec fn exec_contains_hash(s: Seq<StoredExecutedTransactionV>, h: Seq<u8>) -> bool {
    exists|i: int| 0 <= i < s.len() && (#[trigger] s[i]).tx_hash == h
}

/// The execution record carrying this transaction hash, when one is stored.
pub open spec fn exec_spec_lookup(
    s: Seq<StoredExecutedTransactionV>,
    h: Seq<u8>,
) -> Option<StoredExecutedTransactionV> {
    if exec_contains_hash(s, h) {
        let i = choose|i: int| 0 <= i < s.len() && (#[trigger] s[i]).tx_hash == h;
        Some(s[i])
    } else {
        None
    }
}

/// The records of one block, in stored order.
pub open spec fn spec_block_records(
    s: Seq<StoredExecutedTransactionV>,
    block: BlockNumber,
) -> Seq<StoredExecutedTransactionV> {
    s.filter(|tv: StoredExecutedTransactionV| tv.block_number == block as i64)
}

/// Durable, per-(block, transaction-hash) record of execution outcomes.
pub struct ExecutedTxStore {
    recs: Vec<StoredExecutedTransaction>,
}

impl View for ExecutedTxStore {
    type V = Seq<StoredExecutedTransactionV>;

    closed spec fn view(&self) -> Seq<StoredExecutedTransactionV> {
        self.recs@.map_values(|t: StoredExecutedTransaction| t@)
    }
}

impl ExecutedTxStore {
    /// Hashes are unique, and every visible record is internally consistent:
    /// its operation and its block index are set together or absent
    /// together, so a reader never observes a partially applied write.
    pub open spec fn wf(&self) -> bool {
        &&& forall|i: int, j: int|
            0 <= i < j < self@.len() ==> (#[trigger] self@[i]).tx_hash != (
            #[trigger] self@[j]).tx_hash
        &&& forall|i: int|
            0 <= i < self@.len() ==> ((#[trigger] self@[i]).operation is Some <==> self@[
                i
            ].block_index is Some)
    }

    /// An empty store.
    pub fn new() -> (r: ExecutedTxStore)
        ensures
            r@ == Seq::<StoredExecutedTransactionV>::empty(),
            r.wf(),
    {
        let r = ExecutedTxStore { recs: Vec::new() };
        proof {
            assert(r@ =~= Seq::<StoredExecutedTransactionV>::empty());
        }
        r
    }

    /// Number of stored records.
    pub fn len(&self) -> (r: usize)
        ensures
            r == self@.len(),
    {
        self.recs.len()
    }

    /// Persists one execution record for a sealed block, derived from the
    /// outcome by `prepare_stored_tx` and assigned the next surrogate id.
    /// The write is atomic per hash: the record becomes visible whole.
    pub fn record(&mut self, exec_tx: &ExecutedTx, tx_hash: Vec<u8>, block: BlockNumber)
        requires
            old(self).wf(),
            old(self)@.len() < i32::MAX,
            !exec_contains_hash(old(self)@, tx_hash@),
            exec_tx.op is Some <==> exec_tx.block_index is Some,
            exec_tx.block_index matches Some(bi) ==> bi <= i32::MAX,
        ensures
            final(self).wf(),
            final(self)@ == old(self)@.push(
                (StoredExecutedTransactionV {
                    id: (old(self)@.len() + 1) as i32,
                    block_number: block as i64,
                    tx_hash: tx_hash@,
                    operation: match exec_tx.op {
                        Some(o) => Some(crate::codec::spec_encode_op(o@)),
                        None => None,
                    },
                    success: exec_tx.success,
                    fail_reason: opt_view(exec_tx.fail_reason),
                    block_index: match exec_tx.block_index {
                        Some(bi) => Some(bi as i32),
                        None => None,
                    },
                }),
            ),
    {
        let id = (self.recs.len() + 1) as i32;
        let n = NewExecutedTransaction::prepare_stored_tx(exec_tx, tx_hash, block);
        let ghost before = self@;
        self.recs.push(
            StoredExecutedTransaction {
                id,
                block_number: n.block_number,
                tx_hash: n.tx_hash,
                operation: n.operation,
                success: n.success,
                fail_reason: n.fail_reason,
                block_index: n.block_index,
            },
        );
        proof {
            assert(self@ =~= before.push(self.recs@[self.recs@.len() - 1]@));
            assert(forall|i: int|
                0 <= i < before.len() ==> (#[trigger] before[i]).tx_hash != tx_hash@);
        }
    }

    /// Point read by transaction hash; no side effects.
    #[verifier::loop_isolation(false)]
    pub fn by_hash(&self, hash: &Vec<u8>) -> (r: Option<&StoredExecutedTransaction>)
        ensures
            match r {
                Some(t) => self@.contains(t@) && t@.tx_hash == hash@,
                None => !exec_contains_hash(self@, hash@),
            },
            self.wf() ==> opt_view(r) == exec_spec_lookup(self@, hash@),
    {
        let mut i: usize = 0;
        while i < self.recs.len()
            invariant
                i <= self.recs@.len(),
                self.recs@.len() == self.recs.len(),
                forall|k: int| 0 <= k < i ==> (#[trigger] self@[k]).tx_hash != hash@,
            decreases self.recs@.len() - i,
        {
            if bytes_eq(&self.recs[i].tx_hash, hash) {
                proof {
                    assert(self@[i as int] == self.recs@[i as int]@);
                    assert(exec_contains_hash(self@, hash@));
                    if self.wf() {
                        let j = choose|j: int|
                            0 <= j < self@.len() && (#[trigger] self@[j]).tx_hash == hash@;
                        if j < i as int {
                            assert(self@[j].tx_hash != self@[i as int].tx_hash);
                        }
                        if (i as int) < j {
                            assert(self@[i as int].tx_hash != self@[j].tx_hash);
                        }
                    }
                }
                return Some(&self.recs[i]);
            }
            i = i + 1;
        }
        None
    }

    /// All records of one block, in stored order.
    #[verifier::loop_isolation(false)]
    pub fn by_block(&self, block: BlockNumber) -> (r: Vec<&StoredExecutedTransaction>)
        ensures
            r@.map_values(|t: &StoredExecutedTransaction| t@) == spec_block_records(self@, block),
    {
        let ghost pred = |tv: StoredExecutedTransactionV| tv.block_number == block as i64;
        let mut r: Vec<&StoredExecutedTransaction> = Vec::new();
        let mut i: usize = 0;
        while i < self.recs.len()
            invariant
                i <= self.recs@.len(),
                self.recs@.len() == self.recs.len(),
                r@.map_values(|t: &StoredExecutedTransaction| t@) == self@.take(i as int).filter(
                    |tv: StoredExecutedTransactionV| tv.block_number == block as i64,
                ),
            decreases self.recs@.len() - i,
        {
            let ghost prefix = self@.take(i as int);
            let ghost prev = r@.map_values(|t: &StoredExecutedTransaction| t@);
            if self.recs[i].block_number == block as i64 {
                r.push(&self.recs[i]);
            }
            i = i + 1;
            proof {
                reveal(Seq::filter);
                let cur = self@.take(i as int);
                assert(cur.drop_last() =~= prefix);
                assert(cur.last() == self@[i - 1]);
                assert(self@[i - 1] == self.recs@[i - 1]@);
                assert(r@.map_values(|t: &StoredExecutedTransaction| t@) =~= cur.filter(
                    |tv: StoredExecutedTransactionV| tv.block_number == block as i64,
                ));
            }
        }
        proof {
            assert(self@.take(self@.len() as int) =~= self@);
        }
        r
    }
}

} // verus!
