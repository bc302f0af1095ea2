//! Decoded transactions and operations.
//!
//! A `Transaction` is a user-submitted state change; an `Operation` is the
//! validated state-transition instruction that a sealed block carries for it.
//! Deposits are priority operations: they originate on the parent chain and
//! have no user-submitted transaction behind them.
//!
//! Monetary amounts are carried as ASCII decimal strings end to end; no
//! component ever converts them to floating point.
use vstd::prelude::*;

verus! {

/// Mathematical value of a `Transaction`: every byte-vector field seen as a
/// sequence.
#[verifier::ext_equal]
pub enum TransactionV {
    Transfer { from: Seq<u8>, to: Seq<u8>, token: u32, amount: Seq<u8>, fee: Seq<u8> },
    Withdraw { from: Seq<u8>, to: Seq<u8>, token: u32, amount: Seq<u8>, fee: Seq<u8> },
}

/// Mathematical value of an `Operation`.
#[verifier::ext_equal]
pub enum OperationV {
    Transfer { from: Seq<u8>, to: Seq<u8>, token: u32, amount: Seq<u8>, fee: Seq<u8> },
    Withdraw { from: Seq<u8>, to: Seq<u8>, token: u32, amount: Seq<u8>, fee: Seq<u8> },
    Deposit { from: Seq<u8>, to: Seq<u8>, token: u32, amount: Seq<u8> },
}

/// A user-submitted transaction, decoded. `amount` and `fee` are ASCII
/// decimal strings kept as bytes.
#[derive(Debug, PartialEq, Eq)]
pub enum Transaction {
    Transfer { from: Vec<u8>, to: Vec<u8>, token: u32, amount: Vec<u8>, fee: Vec<u8> },
    Withdraw { from: Vec<u8>, to: Vec<u8>, token: u32, amount: Vec<u8>, fee: Vec<u8> },
}

/// A validated state-transition instruction from a sealed block.
#[derive(Debug, PartialEq, Eq)]
pub enum Operation {
    Transfer { from: Vec<u8>, to: Vec<u8>, token: u32, amount: Vec<u8>, fee: Vec<u8> },
    Withdraw { from: Vec<u8>, to: Vec<u8>, token: u32, amount: Vec<u8>, fee: Vec<u8> },
    Deposit { from: Vec<u8>, to: Vec<u8>, token: u32, amount: Vec<u8> },
}

impl View for Transaction {
    type V = TransactionV;

    open spec fn view(&self) -> TransactionV {
        match self {
            Transaction::Transfer { from, to, token, amount, fee } => (TransactionV::Transfer {
                from: from@,
                to: to@,
                token: *token,
                amount: amount@,
                fee: fee@,
            }),
            Transaction::Withdraw { from, to, token, amount, fee } => (TransactionV::Withdraw {
                from: from@,
                to: to@,
                token: *token,
                amount: amount@,
                fee: fee@,
            }),
        }
    }
}

impl View for Operation {
    type V = OperationV;

    open spec fn view(&self) -> OperationV {
        match self {
            Operation::Transfer { from, to, token, amount, fee } => (OperationV::Transfer {
                from: from@,
                to: to@,
                token: *token,
                amount: amount@,
                fee: fee@,
            }),
            Operation::Withdraw { from, to, token, amount, fee } => (OperationV::Withdraw {
                from: from@,
                to: to@,
                token: *token,
                amount: amount@,
                fee: fee@,
            }),
            Operation::Deposit { from, to, token, amount } => (OperationV::Deposit {
                from: from@,
                to: to@,
                token: *token,
                amount: amount@,
            }),
        }
    }
}

/// The view of an optional value, `None` kept as `None`.
pub open spec fn opt_view<T: View>(o: Option<T>) -> Option<T::V> {
    match o {
        Some(t) => Some(t@),
        None => None,
    }
}

/// An ASCII decimal string: nonempty, made of digits and dots.
pub open spec fn is_decimal(s: Seq<u8>) -> bool {
    s.len() > 0 && forall|i: int| 0 <= i < s.len() ==> (48 <= #[trigger] s[i] <= 57 || s[i] == 46)
}

/// Well-formedness of a decoded transaction: amount and fee are decimal text.
pub open spec fn tx_wf(t: TransactionV) -> bool {
    match t {
        TransactionV::Transfer { amount, fee, .. } => is_decimal(amount) && is_decimal(fee),
        TransactionV::Withdraw { amount, fee, .. } => is_decimal(amount) && is_decimal(fee),
    }
}

/// Well-formedness of a decoded operation.
pub open spec fn op_wf(o: OperationV) -> bool {
    match o {
        OperationV::Transfer { amount, fee, .. } => is_decimal(amount) && is_decimal(fee),
        OperationV::Withdraw { amount, fee, .. } => is_decimal(amount) && is_decimal(fee),
        OperationV::Deposit { amount, .. } => is_decimal(amount),
    }
}

/// The transaction an operation embeds; a deposit is a priority operation and
/// embeds none.
pub open spec fn op_tx(o: OperationV) -> Option<TransactionV> {
    match o {
        OperationV::Transfer { from, to, token, amount, fee } => Some(
            TransactionV::Transfer { from, to, token, amount, fee },
        ),
        OperationV::Withdraw { from, to, token, amount, fee } => Some(
            TransactionV::Withdraw { from, to, token, amount, fee },
        ),
        OperationV::Deposit { .. } => None,
    }
}

/// Copies a byte vector. A clone of a `Vec` is only known element by element,
/// so this pins the view of the copy.
pub fn clone_bytes(v: &Vec<u8>) -> (r: Vec<u8>)
    ensures
        r@ == v@,
{
    let r = v.clone();
    proof {
        assert(r@ =~= v@);
    }
    r
}

/// The transaction an operation embeds is as well-formed as the operation:
/// amounts and fees stay decimal text through the embedding.
pub proof fn lemma_op_tx_wf(o: OperationV)
    requires
        op_wf(o),
        op_tx(o) is Some,
    ensures
        tx_wf(op_tx(o).unwrap()),
{
}

impl Operation {
    /// The originating transaction this operation carries, if any.
    pub fn try_get_tx(&self) -> (r: Option<Transaction>)
        ensures
            opt_view(r) == op_tx(self@),
    {
        match self {
            Operation::Transfer { from, to, token, amount, fee } => Some(
                Transaction::Transfer {
                    from: clone_bytes(from),
                    to: clone_bytes(to),
                    token: *token,
                    amount: clone_bytes(amount),
                    fee: clone_bytes(fee),
                },
            ),
            Operation::Withdraw { from, to, token, amount, fee } => Some(
                Transaction::Withdraw {
                    from: clone_bytes(from),
                    to: clone_bytes(to),
                    token: *token,
                    amount: clone_bytes(amount),
                    fee: clone_bytes(fee),
                },
            ),
            Operation::Deposit { .. } => None,
        }
    }
}

} // verus!
