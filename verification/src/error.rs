//! Why a transaction was refused.

use vstd::prelude::*;

verus! {

/// The reasons for which [`crate::Ledger::process`] and
/// [`crate::Account::process`] refuse a transaction.
#[derive(Clone, Copy, Debug, PartialEq, Eq, Structural)]
pub enum PaymentError {
    /// A deposit or withdrawal reached a locked account.
    AccountLocked,
    /// The amount of a deposit or withdrawal is not a decimal, or is
    /// negative.
    BadDecimal,
    /// The transaction's type is none of the five known ones.
    UnknownTxType,
    /// A withdrawal asks for more than is available.
    InsufficientFunds,
    /// A deposit or withdrawal carries an id that is already recorded.
    DuplicateTransaction,
    /// A dispute names a transaction that is already under dispute.
    AlreadyDisputed,
    /// A resolve or chargeback names a transaction that is not under dispute.
    NotDisputed,
    /// The named transaction belongs to another client.
    DisputedWrongClient,
    /// No transaction with the named id is recorded.
    DisputedTxNotFound,
}

/// The reasons for which [`crate::Account::update`] refuses a transaction:
/// those of [`PaymentError`], and one more for a dispute, resolve or
/// chargeback that names a transaction other than a deposit.
#[derive(Clone, Copy, Debug, PartialEq, Eq, Structural)]
pub enum UpdateError {
    /// A deposit or withdrawal reached a locked account.
    AccountLocked,
    /// An amount is not a decimal, or is negative.
    BadDecimal,
    /// The transaction's type is none of the five known ones.
    UnknownTxType,
    /// A withdrawal asks for more than is available.
    InsufficientFunds,
    /// A deposit or withdrawal carries an id that is already recorded.
    DuplicateTransaction,
    /// A dispute names a transaction that is already under dispute.
    AlreadyDisputed,
    /// A resolve or chargeback names a transaction that is not under dispute.
    NotDisputed,
    /// The named transaction belongs to another client.
    DisputedWrongClient,
    /// No transaction with the named id is recorded.
    DisputedTxNotFound,
    /// The named transaction is not a deposit.
    InvalidDisputedTxType,
}

impl PaymentError {
    /// The variant's name.
    pub open spec fn label(self) -> Seq<char> {
        match self {
            PaymentError::AccountLocked => "AccountLocked"@,
            PaymentError::BadDecimal => "BadDecimal"@,
            PaymentError::UnknownTxType => "UnknownTxType"@,
            PaymentError::InsufficientFunds => "InsufficientFunds"@,
            PaymentError::DuplicateTransaction => "DuplicateTransaction"@,
            PaymentError::AlreadyDisputed => "AlreadyDisputed"@,
            PaymentError::NotDisputed => "NotDisputed"@,
            PaymentError::DisputedWrongClient => "DisputedWrongClient"@,
            PaymentError::DisputedTxNotFound => "DisputedTxNotFound"@,
        }
    }

    /// The variant's name, as the error is reported.
    pub fn description(&self) -> (s: &'static str)
        ensures
            s@ == self.label(),
    {
        match self {
            PaymentError::AccountLocked => "AccountLocked",
            PaymentError::BadDecimal => "BadDecimal",
            PaymentError::UnknownTxType => "UnknownTxType",
            PaymentError::InsufficientFunds => "InsufficientFunds",
            PaymentError::DuplicateTransaction => "DuplicateTransaction",
            PaymentError::AlreadyDisputed => "AlreadyDisputed",
            PaymentError::NotDisputed => "NotDisputed",
            PaymentError::DisputedWrongClient => "DisputedWrongClient",
            PaymentError::DisputedTxNotFound => "DisputedTxNotFound",
        }
    }

    /// The same reason among those of [`UpdateError`].
    pub open spec fn widened(self) -> UpdateError {
        match self {
            PaymentError::AccountLocked => UpdateError::AccountLocked,
            PaymentError::BadDecimal => UpdateError::BadDecimal,
            PaymentError::UnknownTxType => UpdateError::UnknownTxType,
            PaymentError::InsufficientFunds => UpdateError::InsufficientFunds,
            PaymentError::DuplicateTransaction => UpdateError::DuplicateTransaction,
            PaymentError::AlreadyDisputed => UpdateError::AlreadyDisputed,
            PaymentError::NotDisputed => UpdateError::NotDisputed,
            PaymentError::DisputedWrongClient => UpdateError::DisputedWrongClient,
            PaymentError::DisputedTxNotFound => UpdateError::DisputedTxNotFound,
        }
    }
}

impl UpdateError {
    /// The variant's name.
    pub open spec fn label(self) -> Seq<char> {
        match self {
            UpdateError::AccountLocked => "AccountLocked"@,
            UpdateError::BadDecimal => "BadDecimal"@,
            UpdateError::UnknownTxType => "UnknownTxType"@,
            UpdateError::InsufficientFunds => "InsufficientFunds"@,
            UpdateError::DuplicateTransaction => "DuplicateTransaction"@,
            UpdateError::AlreadyDisputed => "AlreadyDisputed"@,
            UpdateError::NotDisputed => "NotDisputed"@,
            UpdateError::DisputedWrongClient => "DisputedWrongClient"@,
            UpdateError::DisputedTxNotFound => "DisputedTxNotFound"@,
            UpdateError::InvalidDisputedTxType => "InvalidDisputedTxType"@,
        }
    }

    /// The variant's name, as the error is reported.
    pub fn description(&self) -> (s: &'static str)
        ensures
            s@ == self.label(),
    {
        match self {
            UpdateError::AccountLocked => "AccountLocked",
            UpdateError::BadDecimal => "BadDecimal",
            UpdateError::UnknownTxType => "UnknownTxType",
            UpdateError::InsufficientFunds => "InsufficientFunds",
            UpdateError::DuplicateTransaction => "DuplicateTransaction",
            UpdateError::AlreadyDisputed => "AlreadyDisputed",
            UpdateError::NotDisputed => "NotDisputed",
            UpdateError::DisputedWrongClient => "DisputedWrongClient",
            UpdateError::DisputedTxNotFound => "DisputedTxNotFound",
            UpdateError::InvalidDisputedTxType => "InvalidDisputedTxType",
        }
    }
}

} // verus!
