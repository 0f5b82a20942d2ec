//! Withdrawal rows.

use super::TransactionId;
use crate::client::Client;
use crate::money::Money;
use vstd::prelude::*;

verus! {

/// Money that leaves the available balance of a client.
#[derive(Copy, Clone, PartialEq, Eq, Debug)]
pub struct Withdrawal {
    pub client: Client,
    pub tx: TransactionId,
    pub amount: Money,
}

impl Withdrawal {
    pub fn new(client: Client, tx: TransactionId, amount: Money) -> (r: Self)
        ensures
            r == (Withdrawal { client, tx, amount }),
    {
        Self { client, tx, amount }
    }

    pub fn client(&self) -> (r: Client)
        ensures
            r == self.client,
    {
        self.client
    }

    pub fn transaction_id(&self) -> (r: TransactionId)
        ensures
            r == self.tx,
    {
        self.tx
    }

    pub fn amount(&self) -> (r: Money)
        ensures
            r == self.amount,
    {
        self.amount
    }
}

} // verus!
