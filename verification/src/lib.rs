//! Client account balances kept from a stream of deposits, withdrawals,
//! disputes, resolves and chargebacks.
//!
//! A [`Ledger`] holds one [`Account`] per client and the data the accounts
//! share: the deposits and withdrawals that were accepted, and the ids
//! under dispute. [`Ledger::process`] applies one [`Transaction`]; what it
//! accepts, what it refuses and what it leaves behind is laid down in
//! [`transitions`], and what follows from that for every account is proved
//! in [`laws`].
//!
//! Amounts are exact decimals. The decimal arithmetic itself is done by the
//! `rust_decimal` crate, see [`decimal`]; every sum and difference that
//! reaches a balance is confirmed to be exact by verified integer arithmetic
//! before it is stored, see [`amount`].

pub mod account;
pub mod amount;
pub mod decimal;
pub mod error;
pub mod laws;
pub mod ledger;
pub mod transaction;
pub mod transitions;

pub use account::{Account, Balances, Effect};
pub use amount::Amount;
pub use error::{PaymentError, UpdateError};
pub use ledger::Ledger;
pub use transaction::{Transaction, TxKind, CHARGEBACK, DEPOSIT, DISPUTE, RESOLVE, WITHDRAWAL};
pub use transitions::{GlobalData, State};
