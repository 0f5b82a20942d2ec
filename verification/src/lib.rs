//! A single-pass ledger engine, verified with Verus.
//!
//! The engine takes transactions one at a time. A transfer (a deposit or a
//! withdrawal) moves money on the account of its client and leaves an entry
//! in the ledger; a mutation (a dispute, a resolve or a chargeback) moves
//! the entry of an earlier transfer through the life of a dispute and moves
//! that transfer's amount between the available and the held balance of an
//! account. A chargeback locks the account.
//!
//! # The model
//!
//! Every type that has state has a view, and the contracts speak of views:
//!
//! | type                                     | view                                  |
//! |------------------------------------------|---------------------------------------|
//! | [`money::Money`]                         | [`money::Amount`]                     |
//! | [`account::Account`]                     | [`account::AccountState`]             |
//! | [`transaction_record::TransactionRecord`]| [`transaction_record::EntryState`]    |
//! | [`trial_balance::TrialBalance`]          | [`trial_balance::LedgerState`]        |
//!
//! What the engine does with one transaction is one function of the model,
//! [`trial_balance::LedgerState::step`], from a state and a transaction to
//! the next state and the result. The executable
//! [`trial_balance::TrialBalance::handle_transaction`] is proved to compute
//! it, and what holds of every run is proved of `step`.
//!
//! # Locked accounts
//!
//! A locked account refuses withdrawals and mutations. Whether it refuses
//! deposits is a choice, [`account::LockPolicy`], made when the engine is
//! made. [`trial_balance::TrialBalance::new`] takes
//! [`account::LockPolicy::AcceptDeposits`]: money that was sent to a locked
//! account still comes in.
//!
//! # Arithmetic
//!
//! Sums, differences and comparisons of money are computed by
//! `rust_decimal`. Verus does not look into that crate: the four functions
//! of [`money::Money`] that call it carry contracts that are taken on faith.
//! A comparison is claimed to be the comparison of the numbers. Of a sum or a
//! difference only this is claimed, that it is a function of its two
//! operands: [`money::decimal_checked_add`] and
//! [`money::decimal_checked_sub`] name it. Where `rust_decimal` reports an
//! overflow, the functions whose names begin with `try_` return `None` and
//! change nothing; the others exclude that case by their `requires`.

pub mod account;
pub mod client;
pub mod error;
pub mod money;
pub mod transaction;
pub mod transaction_record;
pub mod trial_balance;
