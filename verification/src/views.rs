//! Client-facing read models, derived on demand from reconciled results.
//!
//! Commit and verification status come from an external block-finality
//! collaborator, and prover runs from an external prover tracker; both are
//! passed through unchanged. Nothing here performs arithmetic on amounts:
//! they stay the decimal strings the transactions carry.
use vstd::prelude::*;
use crate::codec::{encode_tx, spec_encode_tx};
use crate::records::{
    clone_fail_reason, spec_reconcile, BlockNumber, ExecutedTx, ExecutedTxV, ReadTx, ReadTxV,
    StoredExecutedTransaction, StoredExecutedTransactionV,
};
use crate::store::{spec_block_records, spec_lookup, ExecutedTxStore, SubmissionStore};
use crate::tx::{
    clone_bytes, is_decimal, op_wf, opt_view, tx_wf, Operation, OperationV, Transaction,
    TransactionV,
};
use crate::Fault;

verus! {

/// A proof-generation job reference, as the external prover tracker reports
/// it.
#[derive(Debug, PartialEq, Eq, Clone, Copy)]
pub struct ProverRun {
    pub id: i32,
    pub block_number: i64,
}

/// One row of an account's transaction history.
#[derive(Debug, PartialEq, Eq)]
pub struct AccountTransaction {
    pub tx: Vec<u8>,
    pub tx_hash: Vec<u8>,
    pub success: bool,
    pub fail_reason: Option<String>,
    pub committed: bool,
    pub verified: bool,
}

/// One row of the global transaction history. The `commited` field keeps the
/// spelling of the stored column it mirrors.
#[derive(Debug, PartialEq, Eq)]
pub struct TransactionsHistoryItem {
    pub hash: Option<Vec<u8>>,
    pub pq_id: Option<i64>,
    pub tx: Vec<u8>,
    pub success: Option<bool>,
    pub fail_reason: Option<String>,
    pub commited: bool,
    pub verified: bool,
}

/// Mathematical value of a `TransactionsHistoryItem`.
#[verifier::ext_equal]
pub struct TransactionsHistoryItemV {
    pub hash: Option<Seq<u8>>,
    pub pq_id: Option<i64>,
    pub tx: Seq<u8>,
    pub success: Option<bool>,
    pub fail_reason: Option<Seq<char>>,
    pub commited: bool,
    pub verified: bool,
}

impl View for TransactionsHistoryItem {
    type V = TransactionsHistoryItemV;

    open spec fn view(&self) -> TransactionsHistoryItemV {
        TransactionsHistoryItemV {
            hash: opt_view(self.hash),
            pq_id: self.pq_id,
            tx: self.tx@,
            success: self.success,
            fail_reason: opt_view(self.fail_reason),
            commited: self.commited,
            verified: self.verified,
        }
    }
}

/// The history row a record yields: its reconciled outcome packaged with the
/// externally supplied status flags, or the reconciliation fault unchanged.
pub open spec fn spec_history_item(
    rec: StoredExecutedTransactionV,
    sub: Option<ReadTxV>,
    committed: bool,
    verified: bool,
) -> Result<TransactionsHistoryItemV, Fault> {
    match spec_reconcile(rec, sub) {
        Ok(e) => Ok(
            TransactionsHistoryItemV {
                hash: Some(rec.tx_hash),
                pq_id: None,
                tx: spec_encode_tx(e.tx),
                success: Some(e.success),
                fail_reason: e.fail_reason,
                commited: committed,
                verified,
            },
        ),
        Err(f) => Err(f),
    }
}

/// The receipt served for one transaction.
#[derive(Debug, PartialEq, Eq)]
pub struct TxReceiptResponse {
    pub tx_hash: Vec<u8>,
    pub block_number: i64,
    pub success: bool,
    pub verified: bool,
    pub fail_reason: Option<String>,
    pub prover_run: Option<ProverRun>,
}

/// The receipt served for one priority (parent-chain originated) operation.
#[derive(Debug, PartialEq, Eq)]
pub struct PriorityOpReceiptResponse {
    pub committed: bool,
    pub verified: bool,
    pub prover_run: Option<ProverRun>,
}

/// The by-hash view of one transaction: its kind, parties, token and
/// amounts, with the protocol contract standing in where a side has no user
/// account.
#[derive(Debug, PartialEq, Eq)]
pub struct TxByHashResponse {
    pub tx_type: String,
    pub from: Vec<u8>,
    pub to: Vec<u8>,
    pub token: u32,
    pub amount: Vec<u8>,
    pub fee: Option<Vec<u8>>,
    pub block_number: i64,
}

/// Mathematical value of a `TxByHashResponse`.
#[verifier::ext_equal]
pub struct TxByHashV {
    pub tx_type: Seq<char>,
    pub from: Seq<u8>,
    pub to: Seq<u8>,
    pub token: u32,
    pub amount: Seq<u8>,
    pub fee: Option<Seq<u8>>,
    pub block_number: i64,
}

impl View for TxByHashResponse {
    type V = TxByHashV;

    open spec fn view(&self) -> TxByHashV {
        TxByHashV {
            tx_type: self.tx_type@,
            from: self.from@,
            to: self.to@,
            token: self.token,
            amount: self.amount@,
            fee: opt_view(self.fee),
            block_number: self.block_number,
        }
    }
}

/// The address standing for the protocol contract itself in by-hash views: a
/// deposit's source and a withdrawal's destination.
pub open spec fn spec_contract_sentinel() -> Seq<u8> {
    Seq::new(20, |i: int| 0xfeu8)
}

/// The contract sentinel address as bytes.
pub fn contract_sentinel() -> (r: Vec<u8>)
    ensures
        r@ == spec_contract_sentinel(),
{
    let mut v: Vec<u8> = Vec::new();
    let mut i: usize = 0;
    while i < 20
        invariant
            i <= 20,
            v@.len() == i,
            forall|k: int| 0 <= k < i ==> v@[k] == 0xfeu8,
        decreases 20 - i,
    {
        v.push(0xfeu8);
        i = i + 1;
    }
    proof {
        assert(v@ =~= spec_contract_sentinel());
    }
    v
}

/// The by-hash view of a reconciled execution. The executed operation, when
/// present, is classified; a failed transaction is classified by its
/// submitted body. A deposit's `from` and a withdrawal's `to` are the
/// contract sentinel; a deposit carries no fee.
pub open spec fn spec_project_by_hash(e: ExecutedTxV, block_number: i64) -> TxByHashV {
    match e.op {
        Some(OperationV::Transfer { from, to, token, amount, fee }) => TxByHashV {
            tx_type: "Transfer"@,
            from,
            to,
            token,
            amount,
            fee: Some(fee),
            block_number,
        },
        Some(OperationV::Withdraw { from, to, token, amount, fee }) => TxByHashV {
            tx_type: "Withdraw"@,
            from,
            to: spec_contract_sentinel(),
            token,
            amount,
            fee: Some(fee),
            block_number,
        },
        Some(OperationV::Deposit { from, to, token, amount }) => TxByHashV {
            tx_type: "Deposit"@,
            from: spec_contract_sentinel(),
            to,
            token,
            amount,
            fee: None,
            block_number,
        },
        None => match e.tx {
            TransactionV::Transfer { from, to, token, amount, fee } => TxByHashV {
                tx_type: "Transfer"@,
                from,
                to,
                token,
                amount,
                fee: Some(fee),
                block_number,
            },
            TransactionV::Withdraw { from, to, token, amount, fee } => TxByHashV {
                tx_type: "Withdraw"@,
                from,
                to: spec_contract_sentinel(),
                token,
                amount,
                fee: Some(fee),
                block_number,
            },
        },
    }
}

/// Classifies a reconciled execution into its by-hash view.
pub fn project_by_hash(reconciled: &ExecutedTx, block_number: i64) -> (r: TxByHashResponse)
    ensures
        r@ == spec_project_by_hash(reconciled@, block_number),
{
    let r = match &reconciled.op {
        Some(op) => match op {
            Operation::Transfer { from, to, token, amount, fee } => TxByHashResponse {
                tx_type: "Transfer".to_owned(),
                from: clone_bytes(from),
                to: clone_bytes(to),
                token: *token,
                amount: clone_bytes(amount),
                fee: Some(clone_bytes(fee)),
                block_number,
            },
            Operation::Withdraw { from, to, token, amount, fee } => TxByHashResponse {
                tx_type: "Withdraw".to_owned(),
                from: clone_bytes(from),
                to: contract_sentinel(),
                token: *token,
                amount: clone_bytes(amount),
                fee: Some(clone_bytes(fee)),
                block_number,
            },
            Operation::Deposit { to, token, amount, .. } => TxByHashResponse {
                tx_type: "Deposit".to_owned(),
                from: contract_sentinel(),
                to: clone_bytes(to),
                token: *token,
                amount: clone_bytes(amount),
                fee: None,
                block_number,
            },
        },
        None => match &reconciled.tx {
            Transaction::Transfer { from, to, token, amount, fee } => TxByHashResponse {
                tx_type: "Transfer".to_owned(),
                from: clone_bytes(from),
                to: clone_bytes(to),
                token: *token,
                amount: clone_bytes(amount),
                fee: Some(clone_bytes(fee)),
                block_number,
            },
            Transaction::Withdraw { from, to, token, amount, fee } => TxByHashResponse {
                tx_type: "Withdraw".to_owned(),
                from: clone_bytes(from),
                to: contract_sentinel(),
                token: *token,
                amount: clone_bytes(amount),
                fee: Some(clone_bytes(fee)),
                block_number,
            },
        },
    };
    proof {
        assert(r@ =~= spec_project_by_hash(reconciled@, block_number));
    }
    r
}

/// A well-formed execution renders well-formed money fields: the amount of a
/// by-hash view, and its fee when one is present, are decimal text, never
/// anything a floating-point conversion touched.
pub proof fn lemma_by_hash_amounts_stay_decimal(e: ExecutedTxV, block_number: i64)
    requires
        match e.op {
            Some(o) => op_wf(o),
            None => tx_wf(e.tx),
        },
    ensures
        is_decimal(spec_project_by_hash(e, block_number).amount),
        spec_project_by_hash(e, block_number).fee matches Some(f) ==> is_decimal(f),
{
}

/// Reconciles a record with its fallback submission and packages the result
/// as a history row. The commit and verification flags are supplied by the
/// block-finality collaborator and pass through unchanged; the row's payload
/// is the canonical encoding of the reconciled transaction. Reconciliation
/// faults surface unchanged.
pub fn project_history_item(
    record: StoredExecutedTransaction,
    fallback: Option<ReadTx>,
    committed: bool,
    verified: bool,
) -> (r: Result<TransactionsHistoryItem, Fault>)
    ensures
        match r {
            Ok(item) => spec_history_item(record@, opt_view(fallback), committed, verified)
                == Ok::<TransactionsHistoryItemV, Fault>(item@),
            Err(f) => spec_history_item(record@, opt_view(fallback), committed, verified)
                == Err::<TransactionsHistoryItemV, Fault>(f),
        },
{
    let hash = clone_bytes(&record.tx_hash);
    let e = match record.into_executed_tx(fallback) {
        Ok(e) => e,
        Err(f) => {
            return Err(f);
        },
    };
    let payload = encode_tx(&e.tx);
    let item = TransactionsHistoryItem {
        hash: Some(hash),
        pq_id: None,
        tx: payload,
        success: Some(e.success),
        fail_reason: e.fail_reason,
        commited: committed,
        verified,
    };
    proof {
        assert(spec_history_item(record@, opt_view(fallback), committed, verified) matches Ok(itv)
            && itv =~= item@);
    }
    Ok(item)
}

/// Copies an execution record; the copy has the same mathematical value.
fn clone_stored(rec: &StoredExecutedTransaction) -> (r: StoredExecutedTransaction)
    ensures
        r@ == rec@,
{
    let operation = match &rec.operation {
        None => None,
        Some(v) => Some(clone_bytes(v)),
    };
    StoredExecutedTransaction {
        id: rec.id,
        block_number: rec.block_number,
        tx_hash: clone_bytes(&rec.tx_hash),
        operation,
        success: rec.success,
        fail_reason: clone_fail_reason(&rec.fail_reason),
        block_index: rec.block_index,
    }
}

/// Copies a stored submission; the copy has the same mathematical value.
fn clone_read_tx(t: &ReadTx) -> (r: ReadTx)
    ensures
        r@ == t@,
{
    ReadTx {
        hash: clone_bytes(&t.hash),
        primary_account_address: clone_bytes(&t.primary_account_address),
        nonce: t.nonce,
        tx: clone_bytes(&t.tx),
        created_at: t.created_at,
    }
}

/// The history rows of one sealed block, in stored order: every record of
/// the block reconciled against the submission store and packaged, under the
/// status flags the block-finality collaborator reports for that block. The
/// first reconciliation fault aborts the query and surfaces unchanged.
#[verifier::loop_isolation(false)]
pub fn project_block_history(
    exec: &ExecutedTxStore,
    subs: &SubmissionStore,
    block: BlockNumber,
    committed: bool,
    verified: bool,
) -> (r: Result<Vec<TransactionsHistoryItem>, Fault>)
    requires
        subs.wf(),
    ensures
        match r {
            Ok(items) => {
                &&& items@.len() == spec_block_records(exec@, block).len()
                &&& forall|i: int|
                    0 <= i < items@.len() ==> spec_history_item(
                        spec_block_records(exec@, block)[i],
                        spec_lookup(subs@, spec_block_records(exec@, block)[i].tx_hash),
                        committed,
                        verified,
                    ) == Ok::<TransactionsHistoryItemV, Fault>((#[trigger] items@[i])@)
            },
            Err(f) => exists|i: int|
                0 <= i < spec_block_records(exec@, block).len() && spec_history_item(
                    #[trigger] spec_block_records(exec@, block)[i],
                    spec_lookup(subs@, spec_block_records(exec@, block)[i].tx_hash),
                    committed,
                    verified,
                ) == Err::<TransactionsHistoryItemV, Fault>(f),
        },
{
    let recs = exec.by_block(block);
    let ghost target = spec_block_records(exec@, block);
    let mut items: Vec<TransactionsHistoryItem> = Vec::new();
    let mut i: usize = 0;
    while i < recs.len()
        invariant
            recs@.map_values(|t: &StoredExecutedTransaction| t@) == target,
            i <= recs@.len(),
            recs@.len() == recs.len(),
            items@.len() == i,
            forall|k: int|
                0 <= k < i ==> spec_history_item(
                    target[k],
                    spec_lookup(subs@, target[k].tx_hash),
                    committed,
                    verified,
                ) == Ok::<TransactionsHistoryItemV, Fault>((#[trigger] items@[k])@),
        decreases recs@.len() - i,
    {
        proof {
            assert(recs@[i as int]@ == target[i as int]);
        }
        let rec = clone_stored(recs[i]);
        let fallback = match subs.lookup(&rec.tx_hash) {
            Some(t) => Some(clone_read_tx(t)),
            None => None,
        };
        proof {
            assert(opt_view(fallback) == spec_lookup(subs@, target[i as int].tx_hash));
        }
        match project_history_item(rec, fallback, committed, verified) {
            Ok(item) => {
                items.push(item);
            },
            Err(f) => {
                return Err(f);
            },
        }
        i = i + 1;
    }
    Ok(items)
}

/// Reconciles a record and packages the result as a receipt, attaching the
/// verification flag and the prover run supplied by the external
/// collaborators. Reconciliation faults surface unchanged.
pub fn project_receipt(
    record: StoredExecutedTransaction,
    fallback: Option<ReadTx>,
    verified: bool,
    prover_run: Option<ProverRun>,
) -> (r: Result<TxReceiptResponse, Fault>)
    ensures
        match r {
            Ok(receipt) => {
                &&& spec_reconcile(record@, opt_view(fallback)) matches Ok(e)
                &&& receipt.tx_hash@ == record@.tx_hash
                &&& receipt.block_number == record@.block_number
                &&& receipt.success == e.success
                &&& receipt.verified == verified
                &&& opt_view(receipt.fail_reason) == e.fail_reason
                &&& receipt.prover_run == prover_run
            },
            Err(f) => spec_reconcile(record@, opt_view(fallback)) == Err::<ExecutedTxV, Fault>(f),
        },
{
    let tx_hash = clone_bytes(&record.tx_hash);
    let block_number = record.block_number;
    let e = match record.into_executed_tx(fallback) {
        Ok(e) => e,
        Err(f) => {
            return Err(f);
        },
    };
    Ok(
        TxReceiptResponse {
            tx_hash,
            block_number,
            success: e.success,
            verified,
            fail_reason: e.fail_reason,
            prover_run,
        },
    )
}

/// Packages the externally supplied status of a priority operation. Pure
/// passthrough: priority operations have no failure path in this model, so
/// there is nothing to reconcile.
pub fn project_priority_receipt(
    committed: bool,
    verified: bool,
    prover_run: Option<ProverRun>,
) -> (r: PriorityOpReceiptResponse)
    ensures
        r.committed == committed,
        r.verified == verified,
        r.prover_run == prover_run,
{
    PriorityOpReceiptResponse { committed, verified, prover_run }
}

} // verus!
