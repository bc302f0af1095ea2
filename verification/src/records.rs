//! Execution records and the reconciler.
//!
//! A sealed block leaves one `StoredExecutedTransaction` per transaction. A
//! successful transaction is represented entirely by its executed operation;
//! a failed one only by a failure reason, and its body must be re-joined
//! against the original submission. `into_executed_tx` performs that join.
//! Presence of the operation is the sole authority on success, independent of
//! the stored `success` flag.
use vstd::prelude::*;
use crate::codec::{decode_op, decode_tx, encode_op, spec_decode_op, spec_decode_tx, spec_encode_op};
use crate::tx::{op_tx, opt_view, Operation, OperationV, Transaction, TransactionV};
use crate::Fault;

verus! {

/// Block height, as the sealing pipeline numbers blocks.
pub type BlockNumber = u32;

/// A transaction as it entered the submission store, pre-execution. `tx` is
/// the encoded payload.
#[derive(Debug, PartialEq, Eq)]
pub struct InsertTx {
    pub hash: Vec<u8>,
    pub primary_account_address: Vec<u8>,
    pub nonce: i64,
    pub tx: Vec<u8>,
}

/// A submission as read back from the store.
#[derive(Debug, PartialEq, Eq)]
pub struct ReadTx {
    pub hash: Vec<u8>,
    pub primary_account_address: Vec<u8>,
    pub nonce: i64,
    pub tx: Vec<u8>,
    pub created_at: i64,
}

/// Mathematical value of a `ReadTx`.
#[verifier::ext_equal]
pub struct ReadTxV {
    pub hash: Seq<u8>,
    pub primary_account_address: Seq<u8>,
    pub nonce: i64,
    pub tx: Seq<u8>,
    pub created_at: i64,
}

impl View for ReadTx {
    type V = ReadTxV;

    open spec fn view(&self) -> ReadTxV {
        ReadTxV {
            hash: self.hash@,
            primary_account_address: self.primary_account_address@,
            nonce: self.nonce,
            tx: self.tx@,
            created_at: self.created_at,
        }
    }
}

/// One execution outcome as persisted, keyed by block and transaction hash.
/// `operation` and `block_index` are set together on success and absent
/// together on failure; a reader never observes one without the other.
#[derive(Debug, PartialEq, Eq)]
pub struct StoredExecutedTransaction {
    pub id: i32,
    pub block_number: i64,
    pub tx_hash: Vec<u8>,
    pub operation: Option<Vec<u8>>,
    pub success: bool,
    pub fail_reason: Option<String>,
    pub block_index: Option<i32>,
}

/// Mathematical value of a `StoredExecutedTransaction`.
#[verifier::ext_equal]
pub struct StoredExecutedTransactionV {
    pub id: i32,
    pub block_number: i64,
    pub tx_hash: Seq<u8>,
    pub operation: Option<Seq<u8>>,
    pub success: bool,
    pub fail_reason: Option<Seq<char>>,
    pub block_index: Option<i32>,
}

impl View for StoredExecutedTransaction {
    type V = StoredExecutedTransactionV;

    open spec fn view(&self) -> StoredExecutedTransactionV {
        StoredExecutedTransactionV {
            id: self.id,
            block_number: self.block_number,
            tx_hash: self.tx_hash@,
            operation: opt_view(self.operation),
            success: self.success,
            fail_reason: opt_view(self.fail_reason),
            block_index: self.block_index,
        }
    }
}

/// An execution record before it is assigned a surrogate id.
#[derive(Debug, PartialEq, Eq)]
pub struct NewExecutedTransaction {
    pub block_number: i64,
    pub tx_hash: Vec<u8>,
    pub operation: Option<Vec<u8>>,
    pub success: bool,
    pub fail_reason: Option<String>,
    pub block_index: Option<i32>,
}

/// Mathematical value of a `NewExecutedTransaction`.
#[verifier::ext_equal]
pub struct NewExecutedTransactionV {
    pub block_number: i64,
    pub tx_hash: Seq<u8>,
    pub operation: Option<Seq<u8>>,
    pub success: bool,
    pub fail_reason: Option<Seq<char>>,
    pub block_index: Option<i32>,
}

impl View for NewExecutedTransaction {
    type V = NewExecutedTransactionV;

    open spec fn view(&self) -> NewExecutedTransactionV {
        NewExecutedTransactionV {
            block_number: self.block_number,
            tx_hash: self.tx_hash@,
            operation: opt_view(self.operation),
            success: self.success,
            fail_reason: opt_view(self.fail_reason),
            block_index: self.block_index,
        }
    }
}

/// The canonical execution result: one reconciled outcome, produced fresh on
/// every reconciliation call and owned by the caller.
#[derive(Debug, PartialEq, Eq)]
pub struct ExecutedTx {
    pub tx: Transaction,
    pub success: bool,
    pub op: Option<Operation>,
    pub fail_reason: Option<String>,
    pub block_index: Option<u32>,
}

/// Mathematical value of an `ExecutedTx`.
#[verifier::ext_equal]
pub struct ExecutedTxV {
    pub tx: TransactionV,
    pub success: bool,
    pub op: Option<OperationV>,
    pub fail_reason: Option<Seq<char>>,
    pub block_index: Option<u32>,
}

impl View for ExecutedTx {
    type V = ExecutedTxV;

    open spec fn view(&self) -> ExecutedTxV {
        ExecutedTxV {
            tx: self.tx@,
            success: self.success,
            op: opt_view(self.op),
            fail_reason: opt_view(self.fail_reason),
            block_index: self.block_index,
        }
    }
}

/// The reconciliation decision table, at the level of mathematical values.
///
/// Operation present: decode it, extract its embedded transaction, require a
/// usable block index; the result is a success. Operation absent: recover the
/// body from the fallback submission, or fail with `LostTransaction` when
/// there is none.
pub open spec fn spec_reconcile(
    rec: StoredExecutedTransactionV,
    fallback: Option<ReadTxV>,
) -> Result<ExecutedTxV, Fault> {
    match rec.operation {
        Some(ob) => match spec_decode_op(ob) {
            None => Err(Fault::CorruptData),
            Some(op) => match op_tx(op) {
                None => Err(Fault::InvariantViolation),
                Some(tx) => match rec.block_index {
                    Some(bi) => if bi >= 0 {
                        Ok(
                            ExecutedTxV {
                                tx,
                                success: true,
                                op: Some(op),
                                fail_reason: None,
                                block_index: Some(bi as u32),
                            },
                        )
                    } else {
                        Err(Fault::InvariantViolation)
                    },
                    None => Err(Fault::InvariantViolation),
                },
            },
        },
        None => match fallback {
            Some(f) => match spec_decode_tx(f.tx) {
                None => Err(Fault::CorruptData),
                Some(tx) => Ok(
                    ExecutedTxV {
                        tx,
                        success: false,
                        op: None,
                        fail_reason: rec.fail_reason,
                        block_index: None,
                    },
                ),
            },
            None => Err(Fault::LostTransaction),
        },
    }
}

impl StoredExecutedTransaction {
    /// Reconciles this record with the originally submitted transaction, if
    /// one is supplied, into the canonical execution result. Pure: both
    /// inputs are already-fetched values, and the outcome is exactly
    /// `spec_reconcile` on them. Malformed bytes and broken record
    /// invariants surface as faults, never as a fabricated result.
    pub fn into_executed_tx(self, stored_tx: Option<ReadTx>) -> (r: Result<ExecutedTx, Fault>)
        ensures
            match r {
                Ok(e) => spec_reconcile(self@, opt_view(stored_tx)) == Ok::<ExecutedTxV, Fault>(e@),
                Err(f) => spec_reconcile(self@, opt_view(stored_tx)) == Err::<ExecutedTxV, Fault>(
                    f,
                ),
            },
    {
        if let Some(ob) = self.operation {
            let op = match decode_op(&ob) {
                Ok(op) => op,
                Err(f) => {
                    return Err(f);
                },
            };
            let tx = match op.try_get_tx() {
                Some(tx) => tx,
                None => {
                    return Err(Fault::InvariantViolation);
                },
            };
            match self.block_index {
                Some(bi) => {
                    if bi >= 0 {
                        Ok(
                            ExecutedTx {
                                tx,
                                success: true,
                                op: Some(op),
                                fail_reason: None,
                                block_index: Some(bi as u32),
                            },
                        )
                    } else {
                        Err(Fault::InvariantViolation)
                    }
                },
                None => Err(Fault::InvariantViolation),
            }
        } else if let Some(stored) = stored_tx {
            let tx = match decode_tx(&stored.tx) {
                Ok(tx) => tx,
                Err(f) => {
                    return Err(f);
                },
            };
            Ok(
                ExecutedTx {
                    tx,
                    success: false,
                    op: None,
                    fail_reason: self.fail_reason,
                    block_index: None,
                },
            )
        } else {
            Err(Fault::LostTransaction)
        }
    }
}

/// Copies an optional failure reason; the copy is the same value.
pub(crate) fn clone_fail_reason(o: &Option<String>) -> (r: Option<String>)
    ensures
        r == *o,
{
    match o {
        None => None,
        Some(s) => Some(s.clone()),
    }
}

impl NewExecutedTransaction {
    /// Derives the record to persist from a domain execution outcome.
    /// Success carries the encoded operation and the block index; failure
    /// carries neither, only the failure reason. The two are therefore set
    /// or absent together whenever the outcome itself is consistent.
    ///
    /// The transaction hash is supplied by the caller, which is where the
    /// hashing collaborator lives.
    pub fn prepare_stored_tx(exec_tx: &ExecutedTx, tx_hash: Vec<u8>, block: BlockNumber) -> (r:
        NewExecutedTransaction)
        requires
            exec_tx.block_index matches Some(bi) ==> bi <= i32::MAX,
        ensures
            r@ == (NewExecutedTransactionV {
                block_number: block as i64,
                tx_hash: tx_hash@,
                operation: match exec_tx.op {
                    Some(o) => Some(spec_encode_op(o@)),
                    None => None,
                },
                success: exec_tx.success,
                fail_reason: opt_view(exec_tx.fail_reason),
                block_index: match exec_tx.block_index {
                    Some(bi) => Some(bi as i32),
                    None => None,
                },
            }),
    {
        let operation = match &exec_tx.op {
            Some(o) => Some(encode_op(o)),
            None => None,
        };
        let block_index = match exec_tx.block_index {
            Some(bi) => Some(bi as i32),
            None => None,
        };
        let r = NewExecutedTransaction {
            block_number: block as i64,
            tx_hash,
            operation,
            success: exec_tx.success,
            fail_reason: clone_fail_reason(&exec_tx.fail_reason),
            block_index,
        };
        proof {
            assert(r@ =~= (NewExecutedTransactionV {
                block_number: block as i64,
                tx_hash: tx_hash@,
                operation: match exec_tx.op {
                    Some(o) => Some(spec_encode_op(o@)),
                    None => None,
                },
                success: exec_tx.success,
                fail_reason: opt_view(exec_tx.fail_reason),
                block_index: match exec_tx.block_index {
                    Some(bi) => Some(bi as i32),
                    None => None,
                },
            }));
        }
        r
    }
}

/// A record that carries an operation with its embedded transaction and a
/// usable block index reconciles to the success result: `success` is true,
/// the operation is the decoded one, and there is no failure reason — whether
/// or not a fallback submission is present.
pub proof fn lemma_reconcile_success(
    rec: StoredExecutedTransactionV,
    fallback: Option<ReadTxV>,
    op: OperationV,
    tx: TransactionV,
    bi: i32,
)
    requires
        rec.operation matches Some(ob) && spec_decode_op(ob) == Some(op),
        op_tx(op) == Some(tx),
        rec.block_index == Some(bi),
        bi >= 0,
    ensures
        spec_reconcile(rec, fallback) == Ok::<ExecutedTxV, Fault>(
            ExecutedTxV {
                tx,
                success: true,
                op: Some(op),
                fail_reason: None,
                block_index: Some(bi as u32),
            },
        ),
{
}

/// A record without an operation, joined with a decodable submission,
/// reconciles to the failure result: `success` is false, there is no
/// operation and no block index, the failure reason is the record's own, and
/// the transaction is the decoded submission payload.
pub proof fn lemma_reconcile_failure(
    rec: StoredExecutedTransactionV,
    f: ReadTxV,
    tx: TransactionV,
)
    requires
        rec.operation is None,
        spec_decode_tx(f.tx) == Some(tx),
    ensures
        spec_reconcile(rec, Some(f)) == Ok::<ExecutedTxV, Fault>(
            ExecutedTxV {
                tx,
                success: false,
                op: None,
                fail_reason: rec.fail_reason,
                block_index: None,
            },
        ),
{
}

/// A record without an operation and without a matching submission fails
/// with `LostTransaction`: the body cannot be recovered, and the loss is
/// surfaced rather than skipped.
pub proof fn lemma_reconcile_lost(rec: StoredExecutedTransactionV)
    requires
        rec.operation is None,
    ensures
        spec_reconcile(rec, None) == Err::<ExecutedTxV, Fault>(Fault::LostTransaction),
{
}

} // verus!
