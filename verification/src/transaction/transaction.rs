//! The transactions themselves, sorted into transfers and mutations.

use super::charge_back::ChargeBack;
use super::deposit::Deposit;
use super::dispute::Dispute;
use super::error::DeserializationError;
use super::resolve::Resolve;
use super::withdrawal::Withdrawal;
use super::{TransactionId, TransactionRow, TransactionType};
use crate::client::Client;
use crate::money::Money;
use vstd::prelude::*;
use vstd::std_specs::convert::TryFromSpecImpl;

verus! {

/// Everything the engine can be asked to apply.
#[derive(Copy, Clone, PartialEq, Eq, Debug)]
pub enum Transaction {
    /// A deposit or a withdrawal: it moves money and brings a new id.
    Transfer(Transfer),
    /// A dispute, a resolve or a chargeback: it acts on an earlier transfer.
    Mutation(Mutation),
}

impl Transaction {
    /// The client that the transaction names.
    pub open spec fn spec_client(&self) -> Client {
        match self {
            Transaction::Transfer(Transfer::Deposit(d)) => d.client,
            Transaction::Transfer(Transfer::Withdrawal(w)) => w.client,
            Transaction::Mutation(Mutation::Dispute(d)) => d.client,
            Transaction::Mutation(Mutation::Resolve(r)) => r.client,
            Transaction::Mutation(Mutation::ChargeBack(c)) => c.client,
        }
    }

    /// The client that the transaction names.
    #[verifier::when_used_as_spec(spec_client)]
    pub fn client(&self) -> (r: Client)
        ensures
            r == self.spec_client(),
    {
        match self {
            Transaction::Transfer(Transfer::Deposit(d)) => d.client(),
            Transaction::Transfer(Transfer::Withdrawal(w)) => w.client(),
            Transaction::Mutation(m) => match m {
                Mutation::Dispute(d) => d.client(),
                Mutation::Resolve(r) => r.client(),
                Mutation::ChargeBack(c) => c.client(),
            },
        }
    }
}

impl TryFrom<TransactionRow> for Transaction {
    type Error = DeserializationError;

    /// Reads a row as a transaction. A deposit or a withdrawal needs its
    /// amount; the other kinds take none, and one that is there is dropped.
    fn try_from(value: TransactionRow) -> (r: Result<Self, Self::Error>) {
        match (value.transaction_type, value.amount) {
            (TransactionType::Deposit, Some(amount)) => Ok(
                Transaction::Transfer(
                    Transfer::Deposit(Deposit::new(value.client, value.transaction_id, amount)),
                ),
            ),
            (TransactionType::Withdrawal, Some(amount)) => Ok(
                Transaction::Transfer(
                    Transfer::Withdrawal(
                        Withdrawal::new(value.client, value.transaction_id, amount),
                    ),
                ),
            ),
            (TransactionType::Dispute, _) => Ok(
                Transaction::Mutation(
                    Mutation::Dispute(Dispute::new(value.client, value.transaction_id)),
                ),
            ),
            (TransactionType::Resolve, _) => Ok(
                Transaction::Mutation(
                    Mutation::Resolve(Resolve::new(value.client, value.transaction_id)),
                ),
            ),
            (TransactionType::ChargeBack, _) => Ok(
                Transaction::Mutation(
                    Mutation::ChargeBack(ChargeBack::new(value.client, value.transaction_id)),
                ),
            ),
            _ => Err(DeserializationError::ParseError(value)),
        }
    }
}

impl TryFromSpecImpl<TransactionRow> for Transaction {
    open spec fn obeys_try_from_spec() -> bool {
        true
    }

    /// The transaction that a row stands for, or the row itself where a
    /// deposit or a withdrawal comes without an amount.
    open spec fn try_from_spec(v: TransactionRow) -> Result<Self, Self::Error> {
        let client = v.client;
        let tx = v.transaction_id;
        match v.transaction_type {
            TransactionType::Deposit => match v.amount {
                Some(amount) => Ok(
                    Transaction::Transfer(Transfer::Deposit(Deposit { client, tx, amount })),
                ),
                None => Err(DeserializationError::ParseError(v)),
            },
            TransactionType::Withdrawal => match v.amount {
                Some(amount) => Ok(
                    Transaction::Transfer(Transfer::Withdrawal(Withdrawal { client, tx, amount })),
                ),
                None => Err(DeserializationError::ParseError(v)),
            },
            TransactionType::Dispute => Ok(
                Transaction::Mutation(Mutation::Dispute(Dispute { client, tx })),
            ),
            TransactionType::Resolve => Ok(
                Transaction::Mutation(Mutation::Resolve(Resolve { client, tx })),
            ),
            TransactionType::ChargeBack => Ok(
                Transaction::Mutation(Mutation::ChargeBack(ChargeBack { client, tx })),
            ),
        }
    }
}

/// A transfer moves money into or out of the available balance of an
/// account. A [`Mutation`] can act on it later.
#[derive(Copy, Clone, PartialEq, Eq, Debug)]
pub enum Transfer {
    Deposit(Deposit),
    Withdrawal(Withdrawal),
}

impl Transfer {
    /// The id that the transfer brings.
    pub open spec fn spec_transaction_id(&self) -> TransactionId {
        match self {
            Transfer::Deposit(d) => d.tx,
            Transfer::Withdrawal(w) => w.tx,
        }
    }

    /// The id that the transfer brings.
    #[verifier::when_used_as_spec(spec_transaction_id)]
    pub fn transaction_id(&self) -> (r: TransactionId)
        ensures
            r == self.spec_transaction_id(),
    {
        match self {
            Transfer::Deposit(d) => d.transaction_id(),
            Transfer::Withdrawal(w) => w.transaction_id(),
        }
    }

    /// The amount that the transfer moves.
    pub open spec fn spec_amount(&self) -> Money {
        match self {
            Transfer::Deposit(d) => d.amount,
            Transfer::Withdrawal(w) => w.amount,
        }
    }

    /// The amount that the transfer moves.
    #[verifier::when_used_as_spec(spec_amount)]
    pub fn amount(&self) -> (r: Money)
        ensures
            r == self.spec_amount(),
    {
        match self {
            Transfer::Deposit(d) => d.amount(),
            Transfer::Withdrawal(w) => w.amount(),
        }
    }
}

/// A mutation acts on an earlier [`Transfer`], which it names by its id: it
/// changes the state of the transfer's dispute. Several mutations can follow
/// one transfer.
#[derive(Copy, Clone, PartialEq, Eq, PartialOrd, Ord, Debug)]
pub enum Mutation {
    Dispute(Dispute),
    Resolve(Resolve),
    ChargeBack(ChargeBack),
}

impl Mutation {
    /// The id of the transfer that the mutation acts on.
    pub open spec fn spec_transaction_id(&self) -> TransactionId {
        match self {
            Mutation::Dispute(d) => d.tx,
            Mutation::Resolve(r) => r.tx,
            Mutation::ChargeBack(c) => c.tx,
        }
    }

    /// The id of the transfer that the mutation acts on.
    #[verifier::when_used_as_spec(spec_transaction_id)]
    pub fn transaction_id(&self) -> (r: TransactionId)
        ensures
            r == self.spec_transaction_id(),
    {
        match self {
            Mutation::Dispute(d) => d.transaction_id(),
            Mutation::Resolve(r) => r.transaction_id(),
            Mutation::ChargeBack(c) => c.transaction_id(),
        }
    }
}

} // verus!
