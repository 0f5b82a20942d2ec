//! Why a transaction was not applied.

use crate::transaction::TransactionId;
use vstd::prelude::*;

verus! {

/// The reasons for which the engine refuses a transaction. None of them is
/// fatal: the transaction at hand is given up and the next one is taken.
#[derive(Copy, Clone, Debug, PartialEq, Eq)]
pub enum TransactionError {
    /// The account is locked.
    AccountLocked,
    /// A withdrawal asks for more than is available.
    InsufficientFunds,
    /// The transfer is under dispute already, or was charged back.
    DisputeError,
    /// The transfer is not under dispute, so there is nothing to resolve.
    ResolveError,
    /// The transfer is not under dispute, so it cannot be charged back.
    ChargeBackError,
    /// A transfer with this id was seen before.
    DuplicateTransaction(TransactionId),
    /// No transfer with this id was seen.
    MissingTransaction(TransactionId),
}

} // verus!
