//! Transactions: what comes in, row by row.

pub mod charge_back;
pub mod deposit;
pub mod dispute;
pub mod error;
pub mod resolve;
pub mod transaction;
pub mod withdrawal;

pub use self::transaction::{Mutation, Transaction, Transfer};

use crate::client::Client;
use crate::money::Money;
use vstd::prelude::*;

verus! {

/// The id of a transfer, a 32-bit number that is unique over all clients.
#[derive(Copy, Clone, PartialEq, Eq, PartialOrd, Ord, Debug, Hash)]
pub struct TransactionId(pub u32);

impl TransactionId {
    /// The id with the number `id`.
    pub fn new(id: u32) -> (r: Self)
        ensures
            r == TransactionId(id),
    {
        Self(id)
    }

    /// The id's number.
    pub fn id(&self) -> (r: u32)
        ensures
            r == self.0,
    {
        self.0
    }
}

/// The five kinds of rows.
#[derive(Copy, Clone, PartialEq, Eq, PartialOrd, Ord, Debug)]
pub enum TransactionType {
    Deposit,
    Withdrawal,
    Dispute,
    Resolve,
    ChargeBack,
}

/// One row of input as it was read: a kind, a client, a transaction id and,
/// for the kinds that move money, an amount.
#[derive(Copy, Clone, PartialEq, Eq, Debug)]
pub struct TransactionRow {
    pub transaction_type: TransactionType,
    pub client: Client,
    pub transaction_id: TransactionId,
    pub amount: Option<Money>,
}

impl TransactionRow {
    /// The row with these four fields.
    pub fn new(
        transaction_type: TransactionType,
        client: Client,
        transaction_id: TransactionId,
        amount: Option<Money>,
    ) -> (r: Self)
        ensures
            r == (TransactionRow { transaction_type, client, transaction_id, amount }),
    {
        Self { transaction_type, client, transaction_id, amount }
    }
}

} // verus!
