//! Rows that are no transaction.

use super::TransactionRow;
use vstd::prelude::*;

verus! {

/// Why a row could not be read as a transaction.
#[derive(Copy, Clone, Debug, PartialEq, Eq)]
pub enum DeserializationError {
    /// The row's kind needs an amount and the row has none.
    ParseError(TransactionRow),
}

} // verus!
