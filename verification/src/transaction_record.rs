//! Ledger entries: one per transfer, with the state of its dispute.

use crate::error::TransactionError;
use crate::transaction::{Mutation, Transfer};
use vstd::prelude::*;

verus! {

/// What a ledger entry holds: the transfer it was made for, and where the
/// transfer stands in the life of a dispute.
///
/// An entry is clean (neither flag), disputed (`under_dispute`) or charged
/// back (`charge_backed`). It starts clean; a dispute makes a clean entry
/// disputed; a resolve makes a disputed entry clean again; a chargeback makes
/// a disputed entry charged back, for good.
pub struct EntryState {
    pub transfer: Transfer,
    pub under_dispute: bool,
    pub charge_backed: bool,
}

impl EntryState {
    /// The entry of a transfer that was just seen.
    pub open spec fn fresh(transfer: Transfer) -> EntryState {
        EntryState { transfer, under_dispute: false, charge_backed: false }
    }

    /// An entry that was charged back is not under dispute.
    pub open spec fn valid(self) -> bool {
        self.charge_backed ==> !self.under_dispute
    }

    /// The error with which the entry refuses the mutation, if it does.
    pub open spec fn mutation_rejection(self, mutation: Mutation) -> Option<TransactionError> {
        match mutation {
            Mutation::Dispute(_) => if self.under_dispute || self.charge_backed {
                Some(TransactionError::DisputeError)
            } else {
                None
            },
            Mutation::Resolve(_) => if !self.under_dispute {
                Some(TransactionError::ResolveError)
            } else {
                None
            },
            Mutation::ChargeBack(_) => if !self.under_dispute {
                Some(TransactionError::ChargeBackError)
            } else {
                None
            },
        }
    }

    /// The entry after a mutation that it accepts.
    pub open spec fn moved(self, mutation: Mutation) -> EntryState {
        match mutation {
            Mutation::Dispute(_) => EntryState { under_dispute: true, ..self },
            Mutation::Resolve(_) => EntryState { under_dispute: false, ..self },
            Mutation::ChargeBack(_) => EntryState {
                under_dispute: false,
                charge_backed: true,
                ..self
            },
        }
    }

    /// The entry after the mutation, and what the mutation returns: a refused
    /// mutation leaves the entry as it was.
    pub open spec fn mutate(self, mutation: Mutation) -> (EntryState, Result<(), TransactionError>) {
        match self.mutation_rejection(mutation) {
            Some(e) => (self, Err(e)),
            None => (self.moved(mutation), Ok(())),
        }
    }
}

/// The ledger's entry for one transfer.
#[derive(Copy, Clone, Debug, PartialEq, Eq)]
pub struct TransactionRecord {
    tx: Transfer,
    under_dispute: bool,
    charge_backed: bool,
}

impl View for TransactionRecord {
    type V = EntryState;

    closed spec fn view(&self) -> EntryState {
        EntryState {
            transfer: self.tx,
            under_dispute: self.under_dispute,
            charge_backed: self.charge_backed,
        }
    }
}

impl TransactionRecord {
    #[verifier::type_invariant]
    spec fn not_both(self) -> bool {
        self.charge_backed ==> !self.under_dispute
    }

    /// The clean entry of a transfer.
    pub fn new(tx: Transfer) -> (r: Self)
        ensures
            r@ == EntryState::fresh(tx),
    {
        Self { tx, under_dispute: false, charge_backed: false }
    }

    /// The transfer that the entry was made for. It never changes.
    pub fn tx(&self) -> (r: &Transfer)
        ensures
            *r == self@.transfer,
    {
        &self.tx
    }

    /// Whether the transfer is under dispute now.
    pub fn under_dispute(&self) -> (r: bool)
        ensures
            r == self@.under_dispute,
            self@.valid(),
    {
        proof {
            use_type_invariant(self);
        }
        self.under_dispute
    }

    /// Whether the transfer was charged back.
    pub fn charge_backed(&self) -> (r: bool)
        ensures
            r == self@.charge_backed,
            self@.valid(),
    {
        proof {
            use_type_invariant(self);
        }
        self.charge_backed
    }

    /// Moves the entry as the mutation asks, or refuses: a dispute where the
    /// entry is disputed or charged back, a resolve or a chargeback where it
    /// is not disputed. A refused mutation changes nothing.
    pub fn mutate(&mut self, mutation: &Mutation) -> (r: Result<(), TransactionError>)
        ensures
            (final(self)@, r) == old(self)@.mutate(*mutation),
            final(self)@.valid(),
    {
        proof {
            use_type_invariant(&*self);
        }
        match mutation {
            Mutation::Dispute(_) => {
                if !self.under_dispute && !self.charge_backed {
                    self.under_dispute = true;
                } else {
                    return Err(TransactionError::DisputeError);
                }
            },
            Mutation::Resolve(_) => {
                if self.under_dispute && !self.charge_backed {
                    self.under_dispute = false;
                } else {
                    return Err(TransactionError::ResolveError);
                }
            },
            Mutation::ChargeBack(_) => {
                if self.under_dispute {
                    self.under_dispute = false;
                    self.charge_backed = true;
                } else {
                    return Err(TransactionError::ChargeBackError);
                }
            },
        }
        Ok(())
    }
}

/// A dispute of an entry that is under dispute already, or that was charged
/// back, returns `DisputeError` and leaves the entry as it was.
pub proof fn lemma_dispute_needs_clean_entry(entry: EntryState, mutation: Mutation)
    requires
        mutation is Dispute,
        entry.under_dispute || entry.charge_backed,
    ensures
        entry.mutate(mutation) == (entry, Err::<(), _>(TransactionError::DisputeError)),
{
}

/// A resolve of an entry that is not under dispute returns `ResolveError` and
/// leaves the entry as it was.
pub proof fn lemma_resolve_needs_dispute(entry: EntryState, mutation: Mutation)
    requires
        mutation is Resolve,
        !entry.under_dispute,
    ensures
        entry.mutate(mutation) == (entry, Err::<(), _>(TransactionError::ResolveError)),
{
}

/// A chargeback of an entry that is not under dispute returns
/// `ChargeBackError` and leaves the entry as it was.
pub proof fn lemma_charge_back_needs_dispute(entry: EntryState, mutation: Mutation)
    requires
        mutation is ChargeBack,
        !entry.under_dispute,
    ensures
        entry.mutate(mutation) == (entry, Err::<(), _>(TransactionError::ChargeBackError)),
{
}

/// A chargeback is final: once an entry was charged back, it refuses every
/// mutation, a second chargeback too, and stays as it is.
pub proof fn lemma_charged_back_is_terminal(entry: EntryState, mutation: Mutation)
    requires
        entry.valid(),
        entry.charge_backed,
    ensures
        entry.mutate(mutation).1 is Err,
        entry.mutate(mutation).0 == entry,
{
}

/// A chargeback succeeds at most once: after one that succeeded, the entry is
/// valid and charged back, so the next one returns `ChargeBackError`.
pub proof fn lemma_charge_back_succeeds_once(entry: EntryState, first: Mutation, second: Mutation)
    requires
        first is ChargeBack,
        second is ChargeBack,
        entry.mutate(first).1 is Ok,
    ensures
        entry.mutate(first).0.mutate(second) == (
            entry.mutate(first).0,
            Err::<(), _>(TransactionError::ChargeBackError),
        ),
{
}

/// Every state that a valid entry can reach is valid, and none changes the
/// transfer.
pub proof fn lemma_mutate_keeps_entry_valid(entry: EntryState, mutation: Mutation)
    requires
        entry.valid(),
    ensures
        entry.mutate(mutation).0.valid(),
        entry.mutate(mutation).0.transfer == entry.transfer,
{
}

} // verus!
