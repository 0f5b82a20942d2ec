//! Resolve rows.

use super::TransactionId;
use crate::client::Client;
use vstd::prelude::*;

verus! {

/// The end of a dispute in the client's favour: the held amount is released.
/// It names the transfer by its id and carries no amount of its own.
#[derive(Copy, Clone, PartialEq, Eq, PartialOrd, Ord, Debug)]
pub struct Resolve {
    pub client: Client,
    pub tx: TransactionId,
}

impl Resolve {
    pub fn new(client: Client, tx: TransactionId) -> (r: Self)
        ensures
            r == (Resolve { client, tx }),
    {
        Self { client, tx }
    }

    pub fn client(&self) -> (r: Client)
        ensures
            r == self.client,
    {
        self.client
    }

    pub fn transaction_id(&self) -> (r: TransactionId)
        ensures
            r == self.tx,
    {
        self.tx
    }
}

} // verus!
