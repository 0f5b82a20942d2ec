//! The ledger engine: every account, every entry, and the rules that join
//! them.

use crate::account::{Account, AccountState, LockPolicy};
use crate::client::Client;
use crate::error::TransactionError;
use crate::transaction::{Mutation, Transaction, TransactionId};
use crate::transaction_record::{EntryState, TransactionRecord};
use std::collections::HashMap;
use vstd::prelude::*;

verus! {

broadcast use vstd::std_specs::hash::group_hash_axioms;

/// What the engine holds: the accounts by the number of their client, the
/// entries by the number of their transfer's id, and the policy for locked
/// accounts.
pub struct LedgerState {
    pub accounts: Map<u16, AccountState>,
    pub ledger: Map<u32, EntryState>,
    pub policy: LockPolicy,
}

impl LedgerState {
    /// The engine before its first transaction.
    pub open spec fn fresh(policy: LockPolicy) -> LedgerState {
        LedgerState { accounts: Map::empty(), ledger: Map::empty(), policy }
    }

    /// Every account is filed under its client, every entry under the id of
    /// its transfer, and every entry is valid.
    pub open spec fn valid(self) -> bool {
        &&& forall|k: u16| #[trigger]
            self.accounts.contains_key(k) ==> self.accounts[k].client == Client(k)
        &&& forall|t: u32| #[trigger]
            self.ledger.contains_key(t) ==> self.ledger[t].transfer.transaction_id()
                == TransactionId(t) && self.ledger[t].valid()
    }

    /// The account of a client: the one on file or, for a client that was
    /// never seen, a fresh one.
    pub open spec fn account_of(self, client: Client) -> AccountState {
        if self.accounts.contains_key(client.0) {
            self.accounts[client.0]
        } else {
            AccountState::fresh(client)
        }
    }

    /// The state with `account` on file for the client. The entries stay.
    pub open spec fn with_account(self, client: Client, account: AccountState) -> LedgerState {
        LedgerState { accounts: self.accounts.insert(client.0, account), ..self }
    }

    /// The state with `entry` on file for the id. The accounts stay.
    pub open spec fn with_entry(self, id: TransactionId, entry: EntryState) -> LedgerState {
        LedgerState { ledger: self.ledger.insert(id.0, entry), ..self }
    }

    /// Whether `rows` holds every account on file exactly once, in whatever
    /// order: the rows are the accounts of a list of keys that names every
    /// key on file, and none twice.
    pub open spec fn lists(self, rows: Seq<AccountState>) -> bool {
        exists|keys: Seq<u16>|
            {
                &&& #[trigger] keys.len() == rows.len()
                &&& keys.no_duplicates()
                &&& keys.to_set() == self.accounts.dom()
                &&& forall|i: int| 0 <= i < rows.len() ==> rows[i] == self.accounts[keys[i]]
            }
    }

    /// One transaction: the state after it and what it returns, or `None`
    /// where a balance that it asks for cannot be represented.
    ///
    /// The account of the transaction's client is put on file first, fresh if
    /// the client is new, and stays on file whatever follows. Under
    /// [`LockPolicy::RejectAll`] a locked account then refuses the
    /// transaction before the ledger is looked at.
    ///
    /// A transfer whose id is on file is a duplicate. Any other transfer gets
    /// its entry, and then goes to the account: the entry stays when the
    /// account refuses.
    ///
    /// A mutation whose id is not on file is refused. Any other goes to its
    /// entry first; if the entry accepts, the account gets the mutation with
    /// the amount of the entry's transfer, and the entry stays as it has
    /// moved when the account refuses.
    pub open spec fn step(self, tx: Transaction) -> Option<
        (LedgerState, Result<(), TransactionError>),
    > {
        let client = tx.client();
        let account = self.account_of(client);
        let opened = self.with_account(client, account);
        if self.policy is RejectAll && account.locked {
            Some((opened, Err(TransactionError::AccountLocked)))
        } else {
            match tx {
                Transaction::Transfer(transfer) => {
                    let id = transfer.transaction_id();
                    if self.ledger.contains_key(id.0) {
                        Some((opened, Err(TransactionError::DuplicateTransaction(id))))
                    } else {
                        match account.transfer(transfer, self.policy) {
                            Some((after, result)) => Some(
                                (
                                    self.with_account(client, after).with_entry(
                                        id,
                                        EntryState::fresh(transfer),
                                    ),
                                    result,
                                ),
                            ),
                            None => None,
                        }
                    }
                },
                Transaction::Mutation(mutation) => {
                    let id = mutation.transaction_id();
                    if !self.ledger.contains_key(id.0) {
                        Some((opened, Err(TransactionError::MissingTransaction(id))))
                    } else {
                        let entry = self.ledger[id.0];
                        match entry.mutation_rejection(mutation) {
                            Some(e) => Some((opened, Err(e))),
                            None => match account.mutation(mutation, entry.transfer.amount()@) {
                                Some((after, result)) => Some(
                                    (
                                        self.with_account(client, after).with_entry(
                                            id,
                                            entry.moved(mutation),
                                        ),
                                        result,
                                    ),
                                ),
                                None => None,
                            },
                        }
                    }
                },
            }
        }
    }

    /// The state after the transaction. A transaction that asks for a
    /// balance that cannot be represented is not applied, and leaves the
    /// state as it was.
    pub open spec fn after(self, tx: Transaction) -> LedgerState {
        match self.step(tx) {
            Some((next, _)) => next,
            None => self,
        }
    }

    /// The state after the transactions, applied in order.
    pub open spec fn run(self, txs: Seq<Transaction>) -> LedgerState
        decreases txs.len(),
    {
        if txs.len() == 0 {
            self
        } else {
            self.after(txs[0]).run(txs.drop_first())
        }
    }

    /// Whether the entry of the id is on file and was charged back.
    pub open spec fn charged_back(self, id: TransactionId) -> bool {
        self.ledger.contains_key(id.0) && self.ledger[id.0].charge_backed
    }

    /// Whether the client has an account on file that is locked.
    pub open spec fn locked(self, client: Client) -> bool {
        self.accounts.contains_key(client.0) && self.accounts[client.0].locked
    }
}

/// The ledger engine. It keeps the state of every transfer it has seen, not
/// the mutations that led there.
#[derive(Debug)]
pub struct TrialBalance {
    accounts: HashMap<u16, Account>,
    ledger: HashMap<u32, TransactionRecord>,
    policy: LockPolicy,
}

impl View for TrialBalance {
    type V = LedgerState;

    closed spec fn view(&self) -> LedgerState {
        LedgerState {
            accounts: self.accounts@.map_values(|a: Account| a@),
            ledger: self.ledger@.map_values(|r: TransactionRecord| r@),
            policy: self.policy,
        }
    }
}

impl TrialBalance {
    /// An engine without accounts or entries, under the default policy:
    /// [`LockPolicy::AcceptDeposits`].
    pub fn new() -> (r: Self)
        ensures
            r@ == LedgerState::fresh(LockPolicy::AcceptDeposits),
            r@.valid(),
    {
        Self::with_policy(LockPolicy::AcceptDeposits)
    }

    /// An engine without accounts or entries, under the given policy.
    pub fn with_policy(policy: LockPolicy) -> (r: Self)
        ensures
            r@ == LedgerState::fresh(policy),
            r@.valid(),
    {
        let r = Self {
            accounts: HashMap::with_capacity(1000),
            ledger: HashMap::with_capacity(100000),
            policy,
        };
        assert(r@.accounts =~= Map::empty());
        assert(r@.ledger =~= Map::empty());
        r
    }

    /// The policy that the engine was made with.
    pub fn policy(&self) -> (r: LockPolicy)
        ensures
            r == self@.policy,
    {
        self.policy
    }

    /// The account on file for the client, if there is one.
    pub fn account(&self, client: Client) -> (r: Option<Account>)
        ensures
            match r {
                Some(account) => self@.accounts.contains_key(client.0) && account@
                    == self@.accounts[client.0],
                None => !self@.accounts.contains_key(client.0),
            },
    {
        match self.accounts.get(&client.id()) {
            Some(account) => Some(*account),
            None => None,
        }
    }

    /// The entry on file for the id, if there is one.
    pub fn record(&self, id: TransactionId) -> (r: Option<TransactionRecord>)
        ensures
            match r {
                Some(record) => self@.ledger.contains_key(id.0) && record@ == self@.ledger[id.0],
                None => !self@.ledger.contains_key(id.0),
            },
    {
        match self.ledger.get(&id.id()) {
            Some(record) => Some(*record),
            None => None,
        }
    }

    /// The account on file for the client or, for a client that was never
    /// seen, a fresh one. Nothing is put on file.
    pub fn account_of(&self, client: Client) -> (r: Account)
        ensures
            r@ == self@.account_of(client),
    {
        match self.accounts.get(&client.id()) {
            Some(account) => *account,
            None => Account::new(client),
        }
    }

    /// Every account on file, each once, in no particular order.
    pub fn accounts(&self) -> (r: Vec<Account>)
        ensures
            self@.lists(r@.map_values(|a: Account| a@)),
    {
        let mut out: Vec<Account> = Vec::new();
        let ghost mut keys: Seq<u16> = Seq::empty();
        for pair in it: self.accounts.iter()
            invariant
                it.seq().len() == self.accounts@.dom().len(),
                it.seq().no_duplicates(),
                forall|i: int|
                    #![trigger it.seq()[i]]
                    0 <= i < it.seq().len() ==> self.accounts@.contains_key(*it.seq()[i].0)
                        && self.accounts@[*it.seq()[i].0] == *it.seq()[i].1,
                out@.len() == it.index(),
                keys.len() == it.index(),
                forall|i: int|
                    #![trigger it.seq()[i]]
                    0 <= i < it.index() ==> keys[i] == *it.seq()[i].0,
                keys.no_duplicates(),
                forall|i: int|
                    #![trigger keys[i]]
                    0 <= i < keys.len() ==> self.accounts@.contains_key(keys[i])
                        && self.accounts@[keys[i]] == out@[i],
        {
            proof {
                let n = it.index();
                assert forall|i: int| 0 <= i < n implies keys[i] != *pair.0 by {
                    assert(it.seq()[i] != it.seq()[n]);
                }
                assert(it.seq()[n] == pair);
                keys = keys.push(*pair.0);
            }
            out.push(*pair.1);
        }
        proof {
            let rows = out@.map_values(|a: Account| a@);
            assert(keys.len() == rows.len());
            assert(keys.to_set() =~= self.accounts@.dom()) by {
                keys.unique_seq_to_set();
                assert(keys.to_set().subset_of(self.accounts@.dom()));
                vstd::set_lib::lemma_subset_equality(keys.to_set(), self.accounts@.dom());
            }
            assert(self@.accounts.dom() =~= self.accounts@.dom());
            assert(self@.lists(rows));
        }
        out
    }

    /// Whether every balance that the transaction asks for can be
    /// represented, so that [`TrialBalance::handle_transaction`] can apply
    /// it. A transaction that will be refused asks for none. Nothing is
    /// changed.
    pub fn transaction_in_range(&self, tx: &Transaction) -> (r: bool)
        ensures
            r == (self@.step(*tx) is Some),
    {
        let mut account = self.account_of(tx.client());
        if account.locked() {
            match self.policy {
                LockPolicy::RejectAll => {
                    return true;
                },
                LockPolicy::AcceptDeposits => {},
            }
        }
        match tx {
            Transaction::Transfer(transfer) => {
                if self.ledger.contains_key(&transfer.transaction_id().id()) {
                    return true;
                }
                account.try_handle_transfer(transfer, self.policy).is_some()
            },
            Transaction::Mutation(mutation) => {
                let mut record = match self.ledger.get(&mutation.transaction_id().id()) {
                    Some(record) => *record,
                    None => {
                        return true;
                    },
                };
                match record.mutate(mutation) {
                    Err(_) => true,
                    Ok(()) => account.try_handle_mutation(mutation, record.tx().amount()).is_some(),
                }
            },
        }
    }

    /// Applies one transaction where every balance that it asks for can be
    /// represented: see [`LedgerState::step`] for the rules. Where one
    /// cannot, returns `None` and changes nothing.
    pub fn try_handle_transaction(&mut self, tx: Transaction) -> (r: Option<
        Result<(), TransactionError>,
    >)
        ensures
            match old(self)@.step(tx) {
                Some((after, result)) => final(self)@ == after && r == Some(result),
                None => final(self)@ == old(self)@ && r is None,
            },
            final(self)@ == old(self)@.after(tx),
            old(self)@.valid() ==> final(self)@.valid(),
    {
        if self.transaction_in_range(&tx) {
            Some(self.handle_transaction(tx))
        } else {
            None
        }
    }

    /// Applies one transaction: see [`LedgerState::step`] for the rules.
    pub fn handle_transaction(&mut self, tx: Transaction) -> (r: Result<(), TransactionError>)
        requires
            old(self)@.step(tx) is Some,
        ensures
            old(self)@.step(tx) == Some((final(self)@, r)),
            final(self)@ == old(self)@.after(tx),
            old(self)@.valid() ==> final(self)@.valid(),
    {
        let client = tx.client();
        let mut account = self.account_of(client);
        let policy = self.policy;
        let ghost before = self@;
        let ghost opened = before.with_account(client, account@);
        self.accounts.insert(client.id(), account);
        assert(self@.accounts =~= opened.accounts);
        assert(self@ == opened);
        if account.locked() {
            match policy {
                LockPolicy::RejectAll => {
                    return Err(TransactionError::AccountLocked);
                },
                LockPolicy::AcceptDeposits => {},
            }
        }
        match tx {
            Transaction::Transfer(transfer) => {
                let id = transfer.transaction_id();
                if self.ledger.contains_key(&id.id()) {
                    return Err(TransactionError::DuplicateTransaction(id));
                }
                let result = account.try_handle_transfer(&transfer, policy);
                let record = TransactionRecord::new(transfer);
                self.ledger.insert(id.id(), record);
                self.accounts.insert(client.id(), account);
                assert(self@.accounts =~= before.with_account(client, account@).accounts);
                assert(self@.ledger =~= before.with_entry(id, record@).ledger);
                result.unwrap()
            },
            Transaction::Mutation(mutation) => {
                let id = mutation.transaction_id();
                let mut record = match self.ledger.get(&id.id()) {
                    Some(record) => *record,
                    None => {
                        return Err(TransactionError::MissingTransaction(id));
                    },
                };
                let moved = record.mutate(&mutation);
                match moved {
                    Err(e) => Err(e),
                    Ok(()) => {
                        let amount = record.tx().amount();
                        let result = account.try_handle_mutation(&mutation, amount);
                        self.ledger.insert(id.id(), record);
                        self.accounts.insert(client.id(), account);
                        assert(self@.accounts =~= before.with_account(client, account@).accounts);
                        assert(self@.ledger =~= before.with_entry(id, record@).ledger);
                        result.unwrap()
                    },
                }
            },
        }
    }
}

/// The engine starts valid and every transaction keeps it valid. No
/// transaction changes the policy.
pub proof fn lemma_step_keeps_valid(state: LedgerState, tx: Transaction)
    requires
        state.valid(),
    ensures
        LedgerState::fresh(state.policy).valid(),
        state.after(tx).valid(),
        state.after(tx).policy == state.policy,
{
}

/// In a valid state, a listing of the accounts holds one row for each client:
/// every row is the account on file for its own client, and no two rows have
/// the same client.
pub proof fn lemma_listing_has_one_row_per_client(state: LedgerState, rows: Seq<AccountState>)
    requires
        state.valid(),
        state.lists(rows),
    ensures
        rows.len() == state.accounts.len(),
        forall|i: int|
            0 <= i < rows.len() ==> #[trigger] state.accounts.contains_key(rows[i].client.0)
                && state.accounts[rows[i].client.0] == rows[i],
        forall|i: int, j: int|
            0 <= i < j < rows.len() ==> (#[trigger] rows[i]).client != (#[trigger] rows[j]).client,
        forall|k: u16| #[trigger]
            state.accounts.contains_key(k) ==> exists|i: int|
                0 <= i < rows.len() && #[trigger] rows[i].client == Client(k),
{
    let keys = choose|keys: Seq<u16>|
        {
            &&& #[trigger] keys.len() == rows.len()
            &&& keys.no_duplicates()
            &&& keys.to_set() == state.accounts.dom()
            &&& forall|i: int| 0 <= i < rows.len() ==> rows[i] == state.accounts[keys[i]]
        };
    keys.unique_seq_to_set();
    assert forall|i: int| 0 <= i < rows.len() implies state.accounts.contains_key(keys[i])
        && rows[i].client.0 == keys[i] by {
        assert(keys.to_set().contains(keys[i]));
    }
    assert forall|k: u16| #[trigger] state.accounts.contains_key(k) implies exists|i: int|
        0 <= i < rows.len() && #[trigger] rows[i].client == Client(k) by {
        assert(keys.to_set().contains(k));
        let i = choose|i: int| 0 <= i < keys.len() && keys[i] == k;
        assert(rows[i].client == Client(k));
    }
}

/// Two listings of one valid state hold the same rows, whatever their
/// orders are: they are equally long, and every row of the one is a row of
/// the other.
pub proof fn lemma_listings_agree(
    state: LedgerState,
    rows_a: Seq<AccountState>,
    rows_b: Seq<AccountState>,
)
    requires
        state.valid(),
        state.lists(rows_a),
        state.lists(rows_b),
    ensures
        rows_a.len() == rows_b.len(),
        forall|i: int| 0 <= i < rows_a.len() ==> rows_b.contains(#[trigger] rows_a[i]),
{
    lemma_listing_has_one_row_per_client(state, rows_a);
    lemma_listing_has_one_row_per_client(state, rows_b);
    assert forall|i: int| 0 <= i < rows_a.len() implies rows_b.contains(#[trigger] rows_a[i]) by {
        let k = rows_a[i].client.0;
        assert(state.accounts.contains_key(k));
        let j = choose|j: int| 0 <= j < rows_b.len() && #[trigger] rows_b[j].client == Client(k);
        assert(state.accounts.contains_key(rows_b[j].client.0));
        assert(rows_b[j] == rows_a[i]);
    }
}

/// What is on file stays on file: no transaction removes an account or an
/// entry, and none changes the transfer of an entry. The client of a
/// transaction that was applied has an account on file.
pub proof fn lemma_step_keeps_files(state: LedgerState, tx: Transaction)
    ensures
        state.accounts.dom().subset_of(state.after(tx).accounts.dom()),
        state.ledger.dom().subset_of(state.after(tx).ledger.dom()),
        state.step(tx) is Some ==> state.after(tx).accounts.contains_key(tx.client().0),
        forall|t: u32| #[trigger]
            state.ledger.contains_key(t) ==> state.after(tx).ledger[t].transfer
                == state.ledger[t].transfer,
{
}

/// A locked account stays locked: whatever the transaction is and whatever it
/// returns, an account that was locked before it is locked after it.
pub proof fn lemma_step_keeps_locks(state: LedgerState, tx: Transaction, client: Client)
    requires
        state.locked(client),
    ensures
        state.after(tx).locked(client),
{
}

/// A locked account stays locked over any number of transactions.
pub proof fn lemma_run_keeps_locks(state: LedgerState, txs: Seq<Transaction>, client: Client)
    requires
        state.locked(client),
    ensures
        state.run(txs).locked(client),
    decreases txs.len(),
{
    if txs.len() > 0 {
        lemma_step_keeps_locks(state, txs[0], client);
        lemma_run_keeps_locks(state.after(txs[0]), txs.drop_first(), client);
    }
}

/// A transaction that returns an error changes no account: the account of
/// every client, on file or not, is what it was. (A client that was not on
/// file is on file afterwards, with a fresh account.)
pub proof fn lemma_error_changes_no_account(state: LedgerState, tx: Transaction, client: Client)
    requires
        state.step(tx) matches Some((_, Err(_))),
    ensures
        state.after(tx).account_of(client) == state.account_of(client),
{
}

/// A transfer whose id is on file returns `DuplicateTransaction` with that
/// id, and changes no entry and no account.
pub proof fn lemma_transfer_of_known_id(state: LedgerState, tx: Transaction, client: Client)
    requires
        tx is Transfer,
        state.ledger.contains_key(tx->Transfer_0.transaction_id().0),
        !(state.policy is RejectAll && state.account_of(tx.client()).locked),
    ensures
        state.step(tx) matches Some((after, result)) && {
            &&& result == Err::<(), _>(
                TransactionError::DuplicateTransaction(tx->Transfer_0.transaction_id()),
            )
            &&& after.ledger == state.ledger
            &&& after.account_of(client) == state.account_of(client)
        },
{
}

/// Of two transfers with one id, the second returns `DuplicateTransaction`
/// with that id, whether the first was accepted or refused by its account,
/// and changes no entry and no account. (The two may be one transfer, applied
/// twice.)
pub proof fn lemma_transfer_twice_is_duplicate(
    state: LedgerState,
    first: Transaction,
    second: Transaction,
    client: Client,
)
    requires
        first is Transfer,
        second is Transfer,
        first->Transfer_0.transaction_id() == second->Transfer_0.transaction_id(),
        state.step(first) is Some,
        state.policy is AcceptDeposits || !(state.account_of(first.client()).locked
            || state.account_of(second.client()).locked),
    ensures
        state.after(first).step(second) matches Some((after, result)) && {
            &&& result == Err::<(), _>(
                TransactionError::DuplicateTransaction(second->Transfer_0.transaction_id()),
            )
            &&& after.ledger == state.after(first).ledger
            &&& after.account_of(client) == state.after(first).account_of(client)
        },
{
    let once = state.after(first);
    assert(once.ledger.contains_key(second->Transfer_0.transaction_id().0));
    assert(once.account_of(second.client()).locked == state.account_of(second.client()).locked);
    lemma_transfer_of_known_id(once, second, client);
}

/// A mutation whose id is not on file returns `MissingTransaction` with that
/// id, and changes no entry and no account.
pub proof fn lemma_mutation_of_unknown_id(state: LedgerState, tx: Transaction, client: Client)
    requires
        tx is Mutation,
        !state.ledger.contains_key(tx->Mutation_0.transaction_id().0),
        !(state.policy is RejectAll && state.account_of(tx.client()).locked),
    ensures
        state.step(tx) matches Some((after, result)) && {
            &&& result == Err::<(), _>(
                TransactionError::MissingTransaction(tx->Mutation_0.transaction_id()),
            )
            &&& after.ledger == state.ledger
            &&& after.account_of(client) == state.account_of(client)
        },
{
}

/// A dispute of a transfer that is under dispute already, or that was
/// charged back, returns `DisputeError`, and changes no entry and no account.
pub proof fn lemma_dispute_of_disputed_transfer(
    state: LedgerState,
    tx: Transaction,
    client: Client,
)
    requires
        tx matches Transaction::Mutation(Mutation::Dispute(_)),
        state.ledger.contains_key(tx->Mutation_0.transaction_id().0),
        state.ledger[tx->Mutation_0.transaction_id().0].under_dispute
            || state.ledger[tx->Mutation_0.transaction_id().0].charge_backed,
        !(state.policy is RejectAll && state.account_of(tx.client()).locked),
    ensures
        state.step(tx) matches Some((after, result)) && {
            &&& result == Err::<(), _>(TransactionError::DisputeError)
            &&& after.ledger == state.ledger
            &&& after.account_of(client) == state.account_of(client)
        },
{
}

/// A resolve of a transfer that is not under dispute returns `ResolveError`,
/// and changes no entry and no account.
pub proof fn lemma_resolve_of_undisputed_transfer(
    state: LedgerState,
    tx: Transaction,
    client: Client,
)
    requires
        tx matches Transaction::Mutation(Mutation::Resolve(_)),
        state.ledger.contains_key(tx->Mutation_0.transaction_id().0),
        !state.ledger[tx->Mutation_0.transaction_id().0].under_dispute,
        !(state.policy is RejectAll && state.account_of(tx.client()).locked),
    ensures
        state.step(tx) matches Some((after, result)) && {
            &&& result == Err::<(), _>(TransactionError::ResolveError)
            &&& after.ledger == state.ledger
            &&& after.account_of(client) == state.account_of(client)
        },
{
}

/// A chargeback of a transfer that is not under dispute returns
/// `ChargeBackError`, and changes no entry and no account.
pub proof fn lemma_charge_back_of_undisputed_transfer(
    state: LedgerState,
    tx: Transaction,
    client: Client,
)
    requires
        tx matches Transaction::Mutation(Mutation::ChargeBack(_)),
        state.ledger.contains_key(tx->Mutation_0.transaction_id().0),
        !state.ledger[tx->Mutation_0.transaction_id().0].under_dispute,
        !(state.policy is RejectAll && state.account_of(tx.client()).locked),
    ensures
        state.step(tx) matches Some((after, result)) && {
            &&& result == Err::<(), _>(TransactionError::ChargeBackError)
            &&& after.ledger == state.ledger
            &&& after.account_of(client) == state.account_of(client)
        },
{
}

/// A chargeback that succeeds leaves its entry charged back, and its account
/// locked.
pub proof fn lemma_charge_back_locks(state: LedgerState, tx: Transaction)
    requires
        tx matches Transaction::Mutation(Mutation::ChargeBack(_)),
        state.step(tx) matches Some((_, Ok(_))),
    ensures
        state.after(tx).charged_back(tx->Mutation_0.transaction_id()),
        state.after(tx).locked(tx.client()),
{
}

/// A chargeback is final: an entry that was charged back stays as it is,
/// whatever the transaction.
pub proof fn lemma_step_keeps_charge_backs(state: LedgerState, tx: Transaction, id: TransactionId)
    requires
        state.valid(),
        state.charged_back(id),
    ensures
        state.after(tx).charged_back(id),
        state.after(tx).ledger[id.0] == state.ledger[id.0],
{
}

/// A chargeback succeeds at most once for an entry: after any number of
/// transactions the entry is still charged back, so no mutation of it is
/// accepted again, a chargeback no more than the others.
pub proof fn lemma_run_keeps_charge_backs(
    state: LedgerState,
    txs: Seq<Transaction>,
    id: TransactionId,
)
    requires
        state.valid(),
        state.charged_back(id),
    ensures
        state.run(txs).valid(),
        state.run(txs).charged_back(id),
        state.run(txs).ledger[id.0] == state.ledger[id.0],
    decreases txs.len(),
{
    if txs.len() > 0 {
        lemma_step_keeps_valid(state, txs[0]);
        lemma_step_keeps_charge_backs(state, txs[0], id);
        lemma_run_keeps_charge_backs(state.after(txs[0]), txs.drop_first(), id);
    }
}

/// The engine is deterministic: what it holds after a sequence of
/// transactions is a function of the state it started in and of the
/// sequence. Two runs from states that hold the same accounts and entries,
/// under the same policy, over the same transactions, end with the same
/// accounts and entries.
pub proof fn lemma_run_is_deterministic(
    a: LedgerState,
    b: LedgerState,
    txs_a: Seq<Transaction>,
    txs_b: Seq<Transaction>,
)
    requires
        a.policy == b.policy,
        a.accounts.dom() == b.accounts.dom(),
        forall|k: u16| #[trigger] a.accounts.contains_key(k) ==> a.accounts[k] == b.accounts[k],
        a.ledger.dom() == b.ledger.dom(),
        forall|t: u32| #[trigger] a.ledger.contains_key(t) ==> a.ledger[t] == b.ledger[t],
        txs_a.len() == txs_b.len(),
        forall|i: int| 0 <= i < txs_a.len() ==> txs_a[i] == txs_b[i],
    ensures
        a.run(txs_a) == b.run(txs_b),
{
    assert(a.accounts =~= b.accounts);
    assert(a.ledger =~= b.ledger);
    assert(txs_a =~= txs_b);
}

} // verus!
