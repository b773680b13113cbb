use vstd::prelude::*;

verus! {

/// Why a ledger operation was refused. Every refusal is reported before any
/// state is mutated: an operation that returns one of these leaves the ledger
/// exactly as it was.
#[derive(Clone, Copy, Debug, PartialEq, Eq, Structural)]
pub enum TokenError {
    /// A transfer of zero tokens is meaningless and rejected.
    NoOpTransfer,
    /// Sender and receiver are the same account.
    SelfTransfer,
    /// An account identifier is not well formed.
    InvalidAccount,
    /// The sender's spendable (not locked) balance does not cover the amount.
    InsufficientBalance,
    /// The receiver already has an inbound transfer pending; a second one
    /// would make a later finalise or rollback ambiguous.
    TransferInProgress,
    /// A finalise was asked to release more than is locked: protocol misuse.
    FinalizeUnderflow,
    /// A rollback was asked to reverse more than is locked: protocol misuse.
    RollbackUnderflow,
    /// No pending transfer matches: either none was begun, or it was already
    /// resolved once and may not be resolved again.
    TransferNotPending,
    /// A resolution entry point was invoked by an account other than the
    /// ledger's own execution identity.
    Unauthorized,
}

} // verus!
