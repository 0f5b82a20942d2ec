//! Dispute rows.

use super::TransactionId;
use crate::client::Client;
use vstd::prelude::*;

verus! {

/// A claim that a transfer was made in error: its amount is to be held.
/// It names the transfer by its id and carries no amount of its own.
#[derive(Copy, Clone, PartialEq, Eq, PartialOrd, Ord, Debug)]
pub struct Dispute {
    pub client: Client,
    pub tx: TransactionId,
}

impl Dispute {
    pub fn new(client: Client, tx: TransactionId) -> (r: Self)
        ensures
            r == (Dispute { client, tx }),
    {
        Self { client, tx }
    }

    pub fn client(&self) -> (r: Client)
        ensures
            r == self.client,
    {
        self.client
    }

    pub fn transaction_id(&self) -> (r: TransactionId)
        ensures
            r == self.tx,
    {
        self.tx
    }
}

} // verus!
