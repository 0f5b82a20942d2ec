//! Accounts: what a client has available, what is held, and the lock.

use crate::client::Client;
use crate::error::TransactionError;
use crate::money::{Amount, Money};
use crate::transaction::{Mutation, Transfer};
use vstd::prelude::*;

verus! {

/// What a locked account still takes. A locked account refuses every
/// withdrawal and every mutation; whether it refuses deposits too is a
/// matter of policy.
#[derive(Copy, Clone, Debug, PartialEq, Eq)]
pub enum LockPolicy {
    /// A locked account still takes deposits: money that was sent to it
    /// comes in after the lock too. The engine's default.
    AcceptDeposits,
    /// A locked account takes nothing at all.
    RejectAll,
}

impl Default for LockPolicy {
    fn default() -> (r: Self)
        ensures
            r == LockPolicy::AcceptDeposits,
    {
        LockPolicy::AcceptDeposits
    }
}

/// What an account holds. The total is not part of it: it is computed from
/// `available` and `held` whenever it is asked for.
pub struct AccountState {
    pub client: Client,
    pub available: Amount,
    pub held: Amount,
    pub locked: bool,
}

impl AccountState {
    /// The account of a client that was just seen: nothing available,
    /// nothing held, not locked.
    pub open spec fn fresh(client: Client) -> AccountState {
        AccountState { client, available: Amount::zero(), held: Amount::zero(), locked: false }
    }

    /// `available + held`, where that sum can be represented.
    pub open spec fn total(self) -> Option<Amount> {
        self.available.plus(self.held)
    }

    /// Whether the lock stands in the way of the transfer.
    pub open spec fn lock_stops(self, tx: Transfer, policy: LockPolicy) -> bool {
        self.locked && !(policy is AcceptDeposits && tx is Deposit)
    }

    /// The error with which the account refuses the transfer, if it does:
    /// the lock comes first, then a withdrawal of more than is available.
    pub open spec fn transfer_rejection(self, tx: Transfer, policy: LockPolicy) -> Option<
        TransactionError,
    > {
        if self.lock_stops(tx, policy) {
            Some(TransactionError::AccountLocked)
        } else if tx is Withdrawal && self.available.less_than(tx.amount()@) {
            Some(TransactionError::InsufficientFunds)
        } else {
            None
        }
    }

    /// The available balance that the transfer asks for: more by the amount
    /// of a deposit, less by the amount of a withdrawal.
    pub open spec fn transfer_balance(self, tx: Transfer) -> Option<Amount> {
        match tx {
            Transfer::Deposit(d) => self.available.plus(d.amount@),
            Transfer::Withdrawal(w) => self.available.minus(w.amount@),
        }
    }

    /// The account after a transfer whose new available balance is
    /// `balance`, and what the transfer returns. A refused transfer leaves
    /// the account as it was.
    pub open spec fn post_transfer(self, tx: Transfer, policy: LockPolicy, balance: Amount) -> (
        AccountState,
        Result<(), TransactionError>,
    ) {
        match self.transfer_rejection(tx, policy) {
            Some(e) => (self, Err(e)),
            None => (AccountState { available: balance, ..self }, Ok(())),
        }
    }

    /// The account after a transfer, and what the transfer returns; `None`
    /// where the transfer is accepted and its balance cannot be represented.
    pub open spec fn transfer(self, tx: Transfer, policy: LockPolicy) -> Option<
        (AccountState, Result<(), TransactionError>),
    > {
        match self.transfer_rejection(tx, policy) {
            Some(e) => Some((self, Err(e))),
            None => match self.transfer_balance(tx) {
                Some(balance) => Some(self.post_transfer(tx, policy, balance)),
                None => None,
            },
        }
    }

    /// The available and the held balance that the mutation asks for, in
    /// that order. A dispute moves `amount` from available to held, a resolve
    /// moves it back, a chargeback takes it out of held.
    pub open spec fn mutation_balances(self, mutation: Mutation, amount: Amount) -> Option<
        (Amount, Amount),
    > {
        match mutation {
            Mutation::Dispute(_) => match (self.available.minus(amount), self.held.plus(amount)) {
                (Some(available), Some(held)) => Some((available, held)),
                _ => None,
            },
            Mutation::Resolve(_) => match (self.available.plus(amount), self.held.minus(amount)) {
                (Some(available), Some(held)) => Some((available, held)),
                _ => None,
            },
            Mutation::ChargeBack(_) => match self.held.minus(amount) {
                Some(held) => Some((self.available, held)),
                None => None,
            },
        }
    }

    /// The account after a mutation whose new balances are `available` and
    /// `held`, and what the mutation returns. A locked account refuses and
    /// stays as it was; a chargeback locks the account.
    pub open spec fn post_mutation(self, mutation: Mutation, available: Amount, held: Amount) -> (
        AccountState,
        Result<(), TransactionError>,
    ) {
        if self.locked {
            (self, Err(TransactionError::AccountLocked))
        } else {
            (
                AccountState { available, held, locked: mutation is ChargeBack, ..self },
                Ok(()),
            )
        }
    }

    /// The account after a mutation of a transfer of `amount`, and what the
    /// mutation returns; `None` where the mutation is accepted and one of its
    /// balances cannot be represented.
    pub open spec fn mutation(self, mutation: Mutation, amount: Amount) -> Option<
        (AccountState, Result<(), TransactionError>),
    > {
        if self.locked {
            Some((self, Err(TransactionError::AccountLocked)))
        } else {
            match self.mutation_balances(mutation, amount) {
                Some((available, held)) => Some(self.post_mutation(mutation, available, held)),
                None => None,
            }
        }
    }
}

/// The account of one client.
#[derive(Copy, Clone, Debug)]
pub struct Account {
    client: Client,
    available: Money,
    held: Money,
    locked: bool,
}

impl View for Account {
    type V = AccountState;

    closed spec fn view(&self) -> AccountState {
        AccountState {
            client: self.client,
            available: self.available@,
            held: self.held@,
            locked: self.locked,
        }
    }
}

/// An account as it is reported: its four fields and, between `held` and
/// `locked`, the total.
#[derive(Copy, Clone, Debug, PartialEq, Eq)]
pub struct AccountSummary {
    pub client: Client,
    pub available: Money,
    pub held: Money,
    pub total: Money,
    pub locked: bool,
}

impl AccountSummary {
    /// Whether the summary reports this account: the fields are the
    /// account's, and the total is `available + held`.
    pub open spec fn reports(self, account: AccountState) -> bool {
        &&& self.client == account.client
        &&& self.available@ == account.available
        &&& self.held@ == account.held
        &&& Some(self.total@) == account.total()
        &&& self.locked == account.locked
    }
}

impl Account {
    /// The account of a client that was just seen.
    pub fn new(client: Client) -> (r: Self)
        ensures
            r@ == AccountState::fresh(client),
    {
        Self { client, available: Money::new(0, 0), held: Money::new(0, 0), locked: false }
    }

    /// The client that the account belongs to.
    pub fn client(&self) -> (r: Client)
        ensures
            r == self@.client,
    {
        self.client
    }

    /// What the client can dispose of. It can be negative: a dispute holds
    /// the whole amount of a deposit, whatever was withdrawn since.
    pub fn available(&self) -> (r: Money)
        ensures
            r@ == self@.available,
    {
        self.available
    }

    /// What is held because of disputes.
    pub fn held(&self) -> (r: Money)
        ensures
            r@ == self@.held,
    {
        self.held
    }

    /// `available + held`, computed now.
    pub fn total(&self) -> (r: Money)
        requires
            self@.total() is Some,
        ensures
            self@.total() == Some(r@),
    {
        let sum = self.available.checked_add(self.held);
        sum.unwrap()
    }

    /// `available + held`, computed now; `None` where the sum cannot be
    /// represented.
    pub fn try_total(&self) -> (r: Option<Money>)
        ensures
            match r {
                Some(total) => self@.total() == Some(total@),
                None => self@.total() is None,
            },
    {
        if self.available.checked_add(self.held).is_some() {
            Some(self.total())
        } else {
            None
        }
    }

    /// The account with its total, as it is reported.
    pub fn summary(&self) -> (r: AccountSummary)
        requires
            self@.total() is Some,
        ensures
            r.reports(self@),
    {
        AccountSummary {
            client: self.client,
            available: self.available,
            held: self.held,
            total: self.total(),
            locked: self.locked,
        }
    }

    /// The account with its total, as it is reported; `None` where the total
    /// cannot be represented.
    pub fn try_summary(&self) -> (r: Option<AccountSummary>)
        ensures
            match r {
                Some(summary) => summary.reports(self@),
                None => self@.total() is None,
            },
    {
        if self.try_total().is_some() {
            Some(self.summary())
        } else {
            None
        }
    }

    /// Whether the account is locked.
    pub fn locked(&self) -> (r: bool)
        ensures
            r == self@.locked,
    {
        self.locked
    }

    /// Locks the account, for good. To lock a locked account changes
    /// nothing.
    pub fn lock(&mut self)
        ensures
            final(self)@ == (AccountState { locked: true, ..old(self)@ }),
    {
        self.locked = true;
    }

    /// The error with which the account refuses the transfer, if it does.
    pub fn transfer_rejection(&self, tx: &Transfer, policy: LockPolicy) -> (r: Option<
        TransactionError,
    >)
        ensures
            r == self@.transfer_rejection(*tx, policy),
    {
        let bypass = match (policy, tx) {
            (LockPolicy::AcceptDeposits, Transfer::Deposit(_)) => true,
            _ => false,
        };
        if self.locked && !bypass {
            return Some(TransactionError::AccountLocked);
        }
        match tx {
            Transfer::Deposit(_) => None,
            Transfer::Withdrawal(withdrawal) => {
                let amount = withdrawal.amount();
                if self.available.is_less_than(&amount) {
                    Some(TransactionError::InsufficientFunds)
                } else {
                    None
                }
            },
        }
    }

    /// The available balance that the transfer asks for; `None` where it
    /// cannot be represented. The account's lock plays no part in it.
    pub fn transfer_balance(&self, tx: &Transfer) -> (r: Option<Money>)
        ensures
            match r {
                Some(balance) => self@.transfer_balance(*tx) == Some(balance@),
                None => self@.transfer_balance(*tx) is None,
            },
    {
        match tx {
            Transfer::Deposit(deposit) => self.available.checked_add(deposit.amount()),
            Transfer::Withdrawal(withdrawal) => self.available.checked_sub(withdrawal.amount()),
        }
    }

    /// Books a transfer whose new available balance, `balance`, was computed
    /// before. A locked account refuses with `AccountLocked`, but for a
    /// deposit under [`LockPolicy::AcceptDeposits`]; a withdrawal of more
    /// than is available is refused with `InsufficientFunds`. A refused
    /// transfer changes nothing.
    pub fn post_transfer(&mut self, tx: &Transfer, policy: LockPolicy, balance: Money) -> (r:
        Result<(), TransactionError>)
        ensures
            (final(self)@, r) == old(self)@.post_transfer(*tx, policy, balance@),
    {
        match self.transfer_rejection(tx, policy) {
            Some(e) => Err(e),
            None => {
                self.available = balance;
                Ok(())
            },
        }
    }

    /// Applies a transfer. A locked account refuses every transfer with
    /// `AccountLocked`; a withdrawal of more than is available is refused
    /// with `InsufficientFunds`. A refused transfer changes nothing.
    pub fn handle_transfer(&mut self, tx: &Transfer) -> (r: Result<(), TransactionError>)
        requires
            old(self)@.transfer(*tx, LockPolicy::RejectAll) is Some,
        ensures
            old(self)@.transfer(*tx, LockPolicy::RejectAll) == Some((final(self)@, r)),
    {
        match self.transfer_rejection(tx, LockPolicy::RejectAll) {
            Some(e) => Err(e),
            None => {
                let balance = self.transfer_balance(tx).unwrap();
                self.post_transfer(tx, LockPolicy::RejectAll, balance)
            },
        }
    }

    /// Applies a transfer under a policy, where its balance can be
    /// represented; where it cannot, returns `None` and changes nothing.
    pub fn try_handle_transfer(&mut self, tx: &Transfer, policy: LockPolicy) -> (r: Option<
        Result<(), TransactionError>,
    >)
        ensures
            match old(self)@.transfer(*tx, policy) {
                Some((after, result)) => final(self)@ == after && r == Some(result),
                None => final(self)@ == old(self)@ && r is None,
            },
    {
        let past_lock = match (policy, tx) {
            (LockPolicy::AcceptDeposits, Transfer::Deposit(_)) => true,
            _ => false,
        };
        if past_lock {
            // The one transfer that the policy treats in its own way.
            match self.transfer_balance(tx) {
                Some(balance) => Some(self.post_transfer(tx, policy, balance)),
                None => None,
            }
        } else if self.transfer_rejection(tx, LockPolicy::RejectAll).is_some()
            || self.transfer_balance(tx).is_some() {
            Some(self.handle_transfer(tx))
        } else {
            None
        }
    }

    /// The available and the held balance that the mutation asks for, in
    /// that order; `None` where one of them cannot be represented. The
    /// account's lock plays no part in it.
    pub fn mutation_balances(&self, mutation: &Mutation, amount: Money) -> (r: Option<
        (Money, Money),
    >)
        ensures
            match r {
                Some((available, held)) => self@.mutation_balances(*mutation, amount@) == Some(
                    (available@, held@),
                ),
                None => self@.mutation_balances(*mutation, amount@) is None,
            },
    {
        match mutation {
            Mutation::Dispute(_) => {
                match (self.available.checked_sub(amount), self.held.checked_add(amount)) {
                    (Some(available), Some(held)) => Some((available, held)),
                    _ => None,
                }
            },
            Mutation::Resolve(_) => {
                match (self.available.checked_add(amount), self.held.checked_sub(amount)) {
                    (Some(available), Some(held)) => Some((available, held)),
                    _ => None,
                }
            },
            Mutation::ChargeBack(_) => {
                match self.held.checked_sub(amount) {
                    Some(held) => Some((self.available, held)),
                    None => None,
                }
            },
        }
    }

    /// Books a mutation whose new balances, `available` and `held`, were
    /// computed before. A locked account refuses with `AccountLocked` and
    /// stays as it was. A chargeback locks the account.
    pub fn post_mutation(&mut self, mutation: &Mutation, available: Money, held: Money) -> (r:
        Result<(), TransactionError>)
        ensures
            (final(self)@, r) == old(self)@.post_mutation(*mutation, available@, held@),
    {
        if self.locked {
            return Err(TransactionError::AccountLocked);
        }
        match mutation {
            Mutation::Dispute(_) => {},
            Mutation::Resolve(_) => {},
            Mutation::ChargeBack(_) => {
                self.lock();
            },
        }
        self.available = available;
        self.held = held;
        Ok(())
    }

    /// Applies a mutation of a transfer of `amount`. A locked account
    /// refuses with `AccountLocked` and stays as it was. A dispute moves
    /// `amount` from available to held, a resolve moves it back, and a
    /// chargeback takes it out of held and locks the account.
    pub fn handle_mutation(&mut self, mutation: &Mutation, amount: Money) -> (r: Result<
        (),
        TransactionError,
    >)
        requires
            old(self)@.mutation(*mutation, amount@) is Some,
        ensures
            old(self)@.mutation(*mutation, amount@) == Some((final(self)@, r)),
    {
        if self.locked {
            return Err(TransactionError::AccountLocked);
        }
        let (available, held) = self.mutation_balances(mutation, amount).unwrap();
        self.post_mutation(mutation, available, held)
    }

    /// Applies a mutation of a transfer of `amount`, where its balances can
    /// be represented; where they cannot, returns `None` and changes nothing.
    pub fn try_handle_mutation(&mut self, mutation: &Mutation, amount: Money) -> (r: Option<
        Result<(), TransactionError>,
    >)
        ensures
            match old(self)@.mutation(*mutation, amount@) {
                Some((after, result)) => final(self)@ == after && r == Some(result),
                None => final(self)@ == old(self)@ && r is None,
            },
    {
        if self.locked || self.mutation_balances(mutation, amount).is_some() {
            Some(self.handle_mutation(mutation, amount))
        } else {
            None
        }
    }
}

/// No transfer touches the lock, the held balance or the client of an
/// account, whatever the policy and whatever the transfer returns.
pub proof fn lemma_transfer_keeps_lock(
    account: AccountState,
    tx: Transfer,
    policy: LockPolicy,
    balance: Amount,
)
    ensures
        account.post_transfer(tx, policy, balance).0.locked == account.locked,
        account.post_transfer(tx, policy, balance).0.held == account.held,
        account.post_transfer(tx, policy, balance).0.client == account.client,
{
}

/// A locked account stays locked: it refuses every mutation with
/// `AccountLocked` and stays as it was, and an account that is not locked can
/// only become locked, by a chargeback.
pub proof fn lemma_mutation_keeps_lock(
    account: AccountState,
    mutation: Mutation,
    available: Amount,
    held: Amount,
)
    ensures
        account.locked ==> account.post_mutation(mutation, available, held) == (
            account,
            Err::<(), _>(TransactionError::AccountLocked),
        ),
        !account.locked ==> account.post_mutation(mutation, available, held).0.locked == (
        mutation is ChargeBack),
        account.post_mutation(mutation, available, held).0.client == account.client,
{
}

/// Whatever is asked of an account, and whether or not it can be done, an
/// account that was locked before is locked after.
pub proof fn lemma_lock_is_permanent(
    account: AccountState,
    tx: Transfer,
    policy: LockPolicy,
    mutation: Mutation,
    amount: Amount,
)
    requires
        account.locked,
    ensures
        account.transfer(tx, policy) matches Some((after, _)) ==> after.locked,
        account.mutation(mutation, amount) matches Some((after, _)) ==> after.locked,
{
}

/// An account that refuses stays as it was, whether it refuses a transfer or
/// a mutation.
pub proof fn lemma_refusal_changes_nothing(
    account: AccountState,
    tx: Transfer,
    policy: LockPolicy,
    mutation: Mutation,
    amount: Amount,
)
    ensures
        account.transfer(tx, policy) matches Some((after, Err(_))) ==> after == account,
        account.mutation(mutation, amount) matches Some((after, Err(_))) ==> after == account,
{
}

} // verus!
