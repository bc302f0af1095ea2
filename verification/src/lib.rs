//! Executed-transaction reconciliation: joins a transaction as originally
//! submitted with its post-execution record inside a sealed block into one
//! canonical execution result, and projects that result into the read models
//! served to clients (history entries, receipts, by-hash views).
use vstd::prelude::*;

pub mod codec;
pub mod records;
pub mod store;
pub mod tx;
pub mod views;

verus! {

/// Faults surfaced by reconciliation and the stores. All of them are fatal:
/// each signals corruption or a retention bug upstream, never a transient
/// condition, so none may be downgraded to a default value.
#[derive(Clone, Copy, Debug, PartialEq, Eq, Structural)]
pub enum Fault {
    /// Stored payload or operation bytes cannot be decoded.
    CorruptData,
    /// A success record lacks a block index, or an operation lacks its
    /// embedded transaction.
    InvariantViolation,
    /// A failure record has no corresponding submission, so the transaction
    /// body cannot be recovered.
    LostTransaction,
    /// Two submissions share a hash but carry different payloads.
    ConflictingSubmission,
}

} // verus!
