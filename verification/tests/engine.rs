use ledger_engine::account::{Account, LockPolicy};
use ledger_engine::client::Client;
use ledger_engine::error::TransactionError;
use ledger_engine::money::{Money, MAX_MANTISSA};
use ledger_engine::transaction::charge_back::ChargeBack;
use ledger_engine::transaction::deposit::Deposit;
use ledger_engine::transaction::dispute::Dispute;
use ledger_engine::transaction::resolve::Resolve;
use ledger_engine::transaction::withdrawal::Withdrawal;
use ledger_engine::transaction::{Mutation, Transaction, TransactionId, Transfer};
use ledger_engine::trial_balance::TrialBalance;

fn deposit(client: u16, tx: u32, amount: i64) -> Transaction {
    Transaction::Transfer(Transfer::Deposit(Deposit::new(
        Client::new(client),
        TransactionId::new(tx),
        Money::new(amount, 0),
    )))
}

fn withdrawal(client: u16, tx: u32, amount: i64) -> Transaction {
    Transaction::Transfer(Transfer::Withdrawal(Withdrawal::new(
        Client::new(client),
        TransactionId::new(tx),
        Money::new(amount, 0),
    )))
}

fn dispute(client: u16, tx: u32) -> Transaction {
    Transaction::Mutation(Mutation::Dispute(Dispute::new(
        Client::new(client),
        TransactionId::new(tx),
    )))
}

fn resolve(client: u16, tx: u32) -> Transaction {
    Transaction::Mutation(Mutation::Resolve(Resolve::new(
        Client::new(client),
        TransactionId::new(tx),
    )))
}

fn charge_back(client: u16, tx: u32) -> Transaction {
    Transaction::Mutation(Mutation::ChargeBack(ChargeBack::new(
        Client::new(client),
        TransactionId::new(tx),
    )))
}

/// The four numbers and the flag of a client's account.
fn balances(engine: &TrialBalance, client: u16) -> (Money, Money, Money, bool) {
    let account = engine.account(Client::new(client)).unwrap();
    (
        account.available(),
        account.held(),
        account.total(),
        account.locked(),
    )
}

fn money(amount: i64) -> Money {
    Money::new(amount, 0)
}

/// Every account, in the order of the clients.
fn sorted_accounts(engine: &TrialBalance) -> Vec<(u16, i128, u32, i128, u32, bool)> {
    let mut rows: Vec<_> = engine
        .accounts()
        .iter()
        .map(|a: &Account| {
            (
                a.client().id(),
                a.available().mantissa(),
                a.available().scale(),
                a.held().mantissa(),
                a.held().scale(),
                a.locked(),
            )
        })
        .collect();
    rows.sort();
    rows
}

#[test]
fn new_engine_is_empty() {
    let engine = TrialBalance::new();
    assert_eq!(engine.policy(), LockPolicy::AcceptDeposits);
    assert!(engine.accounts().is_empty());
    assert!(engine.account(Client::new(1)).is_none());
    assert!(engine.record(TransactionId::new(1)).is_none());
    let strict = TrialBalance::with_policy(LockPolicy::RejectAll);
    assert_eq!(strict.policy(), LockPolicy::RejectAll);
    assert!(strict.accounts().is_empty());
}

#[test]
fn scenario_resolved_dispute_cannot_be_charged_back() {
    let mut engine = TrialBalance::new();
    assert_eq!(engine.handle_transaction(deposit(1, 1, 100)), Ok(()));
    assert_eq!(balances(&engine, 1), (money(100), money(0), money(100), false));
    assert_eq!(engine.handle_transaction(withdrawal(1, 2, 50)), Ok(()));
    assert_eq!(balances(&engine, 1), (money(50), money(0), money(50), false));
    assert_eq!(engine.handle_transaction(dispute(1, 1)), Ok(()));
    assert_eq!(balances(&engine, 1), (money(-50), money(100), money(50), false));
    assert_eq!(engine.handle_transaction(resolve(1, 1)), Ok(()));
    assert_eq!(balances(&engine, 1), (money(50), money(0), money(50), false));
    assert_eq!(
        engine.handle_transaction(charge_back(1, 1)),
        Err(TransactionError::ChargeBackError)
    );
    assert_eq!(engine.handle_transaction(withdrawal(1, 3, 50)), Ok(()));
    assert_eq!(
        engine.handle_transaction(withdrawal(1, 3, 50)),
        Err(TransactionError::DuplicateTransaction(TransactionId::new(3)))
    );
    assert_eq!(
        engine.handle_transaction(charge_back(1, 100)),
        Err(TransactionError::MissingTransaction(TransactionId::new(100)))
    );
    assert_eq!(balances(&engine, 1), (money(0), money(0), money(0), false));
    assert_eq!(sorted_accounts(&engine), vec![(1, 0, 0, 0, 0, false)]);
}

#[test]
fn scenario_charge_back_locks_and_deposits_still_come_in() {
    let mut engine = TrialBalance::new();
    assert_eq!(engine.handle_transaction(deposit(1, 1, 100)), Ok(()));
    assert_eq!(engine.handle_transaction(dispute(1, 1)), Ok(()));
    assert_eq!(balances(&engine, 1), (money(0), money(100), money(100), false));
    assert_eq!(engine.handle_transaction(charge_back(1, 1)), Ok(()));
    assert_eq!(balances(&engine, 1), (money(0), money(0), money(0), true));
    assert_eq!(
        engine.handle_transaction(withdrawal(1, 2, 10)),
        Err(TransactionError::AccountLocked)
    );
    assert_eq!(balances(&engine, 1), (money(0), money(0), money(0), true));
    // The default policy lets a deposit into a locked account.
    assert_eq!(engine.handle_transaction(deposit(1, 3, 25)), Ok(()));
    assert_eq!(balances(&engine, 1), (money(25), money(0), money(25), true));
}

#[test]
fn scenario_charge_back_locks_and_strict_policy_rejects_deposits() {
    let mut engine = TrialBalance::with_policy(LockPolicy::RejectAll);
    assert_eq!(engine.handle_transaction(deposit(1, 1, 100)), Ok(()));
    assert_eq!(engine.handle_transaction(dispute(1, 1)), Ok(()));
    assert_eq!(engine.handle_transaction(charge_back(1, 1)), Ok(()));
    assert_eq!(balances(&engine, 1), (money(0), money(0), money(0), true));
    assert_eq!(
        engine.handle_transaction(withdrawal(1, 2, 10)),
        Err(TransactionError::AccountLocked)
    );
    assert_eq!(
        engine.handle_transaction(deposit(1, 3, 25)),
        Err(TransactionError::AccountLocked)
    );
    assert_eq!(balances(&engine, 1), (money(0), money(0), money(0), true));
    // Nothing was put on file for the two transfers.
    assert!(engine.record(TransactionId::new(2)).is_none());
    assert!(engine.record(TransactionId::new(3)).is_none());
}

#[test]
fn strict_policy_checks_the_lock_before_the_ledger() {
    let mut engine = TrialBalance::with_policy(LockPolicy::RejectAll);
    engine.handle_transaction(deposit(1, 1, 100)).unwrap();
    engine.handle_transaction(dispute(1, 1)).unwrap();
    engine.handle_transaction(charge_back(1, 1)).unwrap();
    // A duplicate, an unknown id and a refused dispute are all answered by the lock.
    assert_eq!(
        engine.handle_transaction(deposit(1, 1, 100)),
        Err(TransactionError::AccountLocked)
    );
    assert_eq!(
        engine.handle_transaction(dispute(1, 77)),
        Err(TransactionError::AccountLocked)
    );
    assert_eq!(
        engine.handle_transaction(dispute(1, 1)),
        Err(TransactionError::AccountLocked)
    );
    // Other clients are not touched by the lock.
    assert_eq!(engine.handle_transaction(deposit(2, 5, 7)), Ok(()));
    assert_eq!(balances(&engine, 2), (money(7), money(0), money(7), false));
}

#[test]
fn default_policy_files_the_entry_of_a_refused_withdrawal() {
    let mut engine = TrialBalance::new();
    engine.handle_transaction(deposit(1, 1, 100)).unwrap();
    engine.handle_transaction(dispute(1, 1)).unwrap();
    engine.handle_transaction(charge_back(1, 1)).unwrap();
    assert_eq!(
        engine.handle_transaction(withdrawal(1, 2, 10)),
        Err(TransactionError::AccountLocked)
    );
    assert!(engine.record(TransactionId::new(2)).is_some());
    assert_eq!(
        engine.handle_transaction(withdrawal(1, 2, 10)),
        Err(TransactionError::DuplicateTransaction(TransactionId::new(2)))
    );
}

#[test]
fn failed_transfer_is_still_on_file() {
    let mut engine = TrialBalance::new();
    assert_eq!(
        engine.handle_transaction(withdrawal(1, 1, 10)),
        Err(TransactionError::InsufficientFunds)
    );
    let record = engine.record(TransactionId::new(1)).unwrap();
    assert_eq!(record.tx().amount(), money(10));
    assert_eq!((record.under_dispute(), record.charge_backed()), (false, false));
    assert_eq!(balances(&engine, 1), (money(0), money(0), money(0), false));
    assert_eq!(
        engine.handle_transaction(withdrawal(1, 1, 10)),
        Err(TransactionError::DuplicateTransaction(TransactionId::new(1)))
    );
    assert_eq!(balances(&engine, 1), (money(0), money(0), money(0), false));
}

#[test]
fn duplicate_transfer_changes_no_balance() {
    let mut engine = TrialBalance::new();
    engine.handle_transaction(deposit(1, 1, 100)).unwrap();
    let before = balances(&engine, 1);
    assert_eq!(
        engine.handle_transaction(deposit(1, 1, 100)),
        Err(TransactionError::DuplicateTransaction(TransactionId::new(1)))
    );
    assert_eq!(balances(&engine, 1), before);
    // The id is taken for every client and every kind of transfer.
    assert_eq!(
        engine.handle_transaction(withdrawal(2, 1, 5)),
        Err(TransactionError::DuplicateTransaction(TransactionId::new(1)))
    );
    assert_eq!(balances(&engine, 1), before);
    assert_eq!(balances(&engine, 2), (money(0), money(0), money(0), false));
}

#[test]
fn mutation_of_unknown_id_changes_nothing() {
    let mut engine = TrialBalance::new();
    engine.handle_transaction(deposit(1, 1, 100)).unwrap();
    let before = balances(&engine, 1);
    for tx in [dispute(1, 9), resolve(1, 9), charge_back(1, 9)] {
        assert_eq!(
            engine.handle_transaction(tx),
            Err(TransactionError::MissingTransaction(TransactionId::new(9)))
        );
        assert_eq!(balances(&engine, 1), before);
        assert!(engine.record(TransactionId::new(9)).is_none());
    }
}

#[test]
fn dispute_of_disputed_or_charged_back_transfer_changes_nothing() {
    let mut engine = TrialBalance::new();
    engine.handle_transaction(deposit(1, 1, 100)).unwrap();
    engine.handle_transaction(deposit(1, 2, 40)).unwrap();
    engine.handle_transaction(dispute(1, 1)).unwrap();
    let before = balances(&engine, 1);
    let record = engine.record(TransactionId::new(1)).unwrap();
    assert_eq!(before, (money(40), money(100), money(140), false));
    assert_eq!(
        engine.handle_transaction(dispute(1, 1)),
        Err(TransactionError::DisputeError)
    );
    assert_eq!(balances(&engine, 1), before);
    assert_eq!(engine.record(TransactionId::new(1)), Some(record));

    engine.handle_transaction(charge_back(1, 1)).unwrap();
    let before = balances(&engine, 1);
    let record = engine.record(TransactionId::new(1)).unwrap();
    assert_eq!(
        engine.handle_transaction(dispute(2, 1)),
        Err(TransactionError::DisputeError)
    );
    assert_eq!(balances(&engine, 1), before);
    assert_eq!(balances(&engine, 2), (money(0), money(0), money(0), false));
    assert_eq!(engine.record(TransactionId::new(1)), Some(record));
}

#[test]
fn resolve_of_undisputed_transfer_changes_nothing() {
    let mut engine = TrialBalance::new();
    engine.handle_transaction(deposit(1, 1, 100)).unwrap();
    let before = balances(&engine, 1);
    let record = engine.record(TransactionId::new(1)).unwrap();
    assert_eq!(
        engine.handle_transaction(resolve(1, 1)),
        Err(TransactionError::ResolveError)
    );
    assert_eq!(balances(&engine, 1), before);
    assert_eq!(engine.record(TransactionId::new(1)), Some(record));
}

#[test]
fn charge_back_succeeds_once() {
    let mut engine = TrialBalance::new();
    engine.handle_transaction(deposit(1, 1, 100)).unwrap();
    engine.handle_transaction(deposit(2, 2, 10)).unwrap();
    assert_eq!(
        engine.handle_transaction(charge_back(1, 1)),
        Err(TransactionError::ChargeBackError)
    );
    assert_eq!(balances(&engine, 1), (money(100), money(0), money(100), false));
    engine.handle_transaction(dispute(1, 1)).unwrap();
    assert_eq!(engine.handle_transaction(charge_back(1, 1)), Ok(()));
    let before = balances(&engine, 1);
    assert_eq!(before, (money(0), money(0), money(0), true));
    // From another client, whose account is open, the entry itself answers.
    assert_eq!(
        engine.handle_transaction(charge_back(2, 1)),
        Err(TransactionError::ChargeBackError)
    );
    assert_eq!(
        engine.handle_transaction(resolve(2, 1)),
        Err(TransactionError::ResolveError)
    );
    assert_eq!(
        engine.handle_transaction(charge_back(1, 1)),
        Err(TransactionError::ChargeBackError)
    );
    assert_eq!(balances(&engine, 1), before);
    assert_eq!(balances(&engine, 2), (money(10), money(0), money(10), false));
}

#[test]
fn entry_moves_even_when_the_locked_account_refuses() {
    let mut engine = TrialBalance::new();
    engine.handle_transaction(deposit(1, 1, 100)).unwrap();
    engine.handle_transaction(deposit(1, 2, 30)).unwrap();
    engine.handle_transaction(dispute(1, 1)).unwrap();
    engine.handle_transaction(charge_back(1, 1)).unwrap();
    let before = balances(&engine, 1);
    assert_eq!(before, (money(30), money(0), money(30), true));
    // The entry accepts the dispute, the locked account refuses its effect.
    assert_eq!(
        engine.handle_transaction(dispute(1, 2)),
        Err(TransactionError::AccountLocked)
    );
    assert_eq!(balances(&engine, 1), before);
    assert!(engine.record(TransactionId::new(2)).unwrap().under_dispute());
    assert_eq!(
        engine.handle_transaction(dispute(1, 2)),
        Err(TransactionError::DisputeError)
    );
}

#[test]
fn mutation_acts_on_the_account_of_its_own_client() {
    let mut engine = TrialBalance::new();
    engine.handle_transaction(deposit(1, 1, 100)).unwrap();
    assert_eq!(engine.handle_transaction(dispute(2, 1)), Ok(()));
    assert_eq!(balances(&engine, 1), (money(100), money(0), money(100), false));
    assert_eq!(balances(&engine, 2), (money(-100), money(100), money(0), false));
}

#[test]
fn client_of_a_refused_transaction_gets_an_account() {
    let mut engine = TrialBalance::new();
    assert_eq!(
        engine.handle_transaction(dispute(7, 1)),
        Err(TransactionError::MissingTransaction(TransactionId::new(1)))
    );
    assert_eq!(balances(&engine, 7), (money(0), money(0), money(0), false));
    assert_eq!(sorted_accounts(&engine), vec![(7, 0, 0, 0, 0, false)]);
}

#[test]
fn lock_is_never_lifted() {
    for policy in [LockPolicy::AcceptDeposits, LockPolicy::RejectAll] {
        let mut engine = TrialBalance::with_policy(policy);
        engine.handle_transaction(deposit(1, 1, 100)).unwrap();
        engine.handle_transaction(deposit(1, 2, 100)).unwrap();
        engine.handle_transaction(dispute(1, 1)).unwrap();
        engine.handle_transaction(charge_back(1, 1)).unwrap();
        let steps = vec![
            deposit(1, 3, 5),
            withdrawal(1, 4, 5),
            dispute(1, 2),
            resolve(1, 2),
            charge_back(1, 2),
            dispute(1, 1),
            deposit(2, 5, 5),
            dispute(2, 5),
            charge_back(1, 99),
        ];
        for tx in steps {
            let _ = engine.handle_transaction(tx);
            assert!(engine.account(Client::new(1)).unwrap().locked());
        }
    }
}

#[test]
fn total_is_available_plus_held_for_every_account() {
    let mut engine = TrialBalance::new();
    let steps = vec![
        deposit(1, 1, 100),
        deposit(2, 2, 70),
        withdrawal(1, 3, 30),
        dispute(1, 1),
        dispute(2, 2),
        resolve(2, 2),
        withdrawal(2, 4, 100),
        charge_back(1, 1),
        deposit(1, 5, 1),
    ];
    for tx in steps {
        let _ = engine.handle_transaction(tx);
        for account in engine.accounts() {
            let sum = rust_decimal::Decimal::from_i128_with_scale(
                account.available().mantissa(),
                account.available().scale(),
            ) + rust_decimal::Decimal::from_i128_with_scale(
                account.held().mantissa(),
                account.held().scale(),
            );
            let total = account.total();
            assert_eq!(
                rust_decimal::Decimal::from_i128_with_scale(total.mantissa(), total.scale()),
                sum
            );
        }
    }
    assert_eq!(
        sorted_accounts(&engine),
        vec![(1, -29, 0, 0, 0, true), (2, 70, 0, 0, 0, false)]
    );
}

#[test]
fn same_input_gives_same_accounts() {
    let input = vec![
        deposit(1, 1, 100),
        deposit(2, 2, 70),
        withdrawal(1, 3, 30),
        withdrawal(3, 4, 1),
        dispute(1, 1),
        deposit(2, 2, 70),
        dispute(2, 2),
        charge_back(2, 2),
        resolve(1, 1),
        resolve(1, 1),
        deposit(2, 5, 9),
        dispute(4, 3),
    ];
    let run = |policy: LockPolicy| {
        let mut engine = TrialBalance::with_policy(policy);
        let results: Vec<_> = input
            .iter()
            .map(|tx| engine.handle_transaction(*tx))
            .collect();
        (results, sorted_accounts(&engine))
    };
    for policy in [LockPolicy::AcceptDeposits, LockPolicy::RejectAll] {
        let first = run(policy);
        let second = run(policy);
        assert_eq!(first, second);
    }
    let (results, accounts) = run(LockPolicy::AcceptDeposits);
    assert_eq!(
        results,
        vec![
            Ok(()),
            Ok(()),
            Ok(()),
            Err(TransactionError::InsufficientFunds),
            Ok(()),
            Err(TransactionError::DuplicateTransaction(TransactionId::new(2))),
            Ok(()),
            Ok(()),
            Ok(()),
            Err(TransactionError::ResolveError),
            Ok(()),
            Ok(()),
        ]
    );
    assert_eq!(
        accounts,
        vec![
            (1, 70, 0, 0, 0, false),
            (2, 9, 0, 0, 0, true),
            (3, 0, 0, 0, 0, false),
            (4, -30, 0, 30, 0, false),
        ]
    );
}

#[test]
fn accounts_lists_every_client_once() {
    let mut engine = TrialBalance::new();
    for client in 0..50u16 {
        engine
            .handle_transaction(deposit(client, client as u32, client as i64))
            .unwrap();
        let _ = engine.handle_transaction(deposit(client, client as u32, 1));
    }
    let rows = sorted_accounts(&engine);
    assert_eq!(rows.len(), 50);
    for (index, row) in rows.iter().enumerate() {
        assert_eq!(*row, (index as u16, index as i128, 0, 0, 0, false));
    }
}

#[test]
fn try_handle_transaction_agrees_with_handle_transaction() {
    let input = vec![
        deposit(1, 1, 100),
        withdrawal(1, 2, 130),
        dispute(1, 1),
        dispute(1, 1),
        charge_back(1, 1),
        deposit(1, 3, 5),
        resolve(1, 8),
    ];
    let mut a = TrialBalance::new();
    let mut b = TrialBalance::new();
    for tx in input {
        assert!(b.transaction_in_range(&tx));
        let x = a.handle_transaction(tx);
        let y = b.try_handle_transaction(tx);
        assert_eq!(Some(x), y);
        assert_eq!(sorted_accounts(&a), sorted_accounts(&b));
    }
}

#[test]
fn transaction_out_of_range_is_not_applied() {
    let most = Money::try_new(MAX_MANTISSA, 0).unwrap();
    let big = |tx: u32| {
        Transaction::Transfer(Transfer::Deposit(Deposit::new(
            Client::new(1),
            TransactionId::new(tx),
            most,
        )))
    };
    let mut engine = TrialBalance::new();
    assert_eq!(engine.try_handle_transaction(big(1)), Some(Ok(())));
    let before = sorted_accounts(&engine);
    assert!(!engine.transaction_in_range(&big(2)));
    assert_eq!(engine.try_handle_transaction(big(2)), None);
    assert_eq!(sorted_accounts(&engine), before);
    assert!(engine.record(TransactionId::new(2)).is_none());
    // A duplicate asks for no balance, so it is in range.
    assert!(engine.transaction_in_range(&big(1)));
    assert_eq!(
        engine.try_handle_transaction(big(1)),
        Some(Err(TransactionError::DuplicateTransaction(
            TransactionId::new(1)
        )))
    );
    // So does a dispute that would overflow the held balance of another account.
    assert_eq!(engine.try_handle_transaction(dispute(1, 1)), Some(Ok(())));
    assert_eq!(engine.try_handle_transaction(resolve(1, 1)), Some(Ok(())));
    assert_eq!(engine.try_handle_transaction(dispute(1, 1)), Some(Ok(())));
    assert_eq!(engine.try_handle_transaction(big(3)), Some(Ok(())));
    assert_eq!(engine.try_handle_transaction(dispute(1, 3)), None);
    assert!(!engine.record(TransactionId::new(3)).unwrap().under_dispute());
}

#[test]
fn decimal_places_are_kept() {
    let mut engine = TrialBalance::new();
    let steps = vec![
        (1u32, 11234i64, 4u32),
        (3, 20000, 4),
    ];
    for (tx, mantissa, scale) in steps {
        engine
            .handle_transaction(Transaction::Transfer(Transfer::Deposit(Deposit::new(
                Client::new(1),
                TransactionId::new(tx),
                Money::new(mantissa, scale),
            ))))
            .unwrap();
    }
    engine
        .handle_transaction(Transaction::Transfer(Transfer::Withdrawal(
            Withdrawal::new(Client::new(1), TransactionId::new(4), Money::new(15, 1)),
        )))
        .unwrap();
    let account = engine.account(Client::new(1)).unwrap();
    assert_eq!(account.available(), Money::new(16234, 4));
    assert_eq!(account.available().mantissa(), 16234);
    assert_eq!(account.available().scale(), 4);
    assert_eq!(account.total(), Money::new(16234, 4));
}
