//! Transactions as they arrive: a type and an amount in text, a client and an id.

use crate::amount::{lemma_sign, Amount};
use crate::decimal::decimal_from_str;
use vstd::prelude::*;

verus! {

/// The type of a withdrawal.
pub const WITHDRAWAL: &'static str = "withdrawal";

/// The type of a deposit.
pub const DEPOSIT: &'static str = "deposit";

/// The type of a dispute.
pub const DISPUTE: &'static str = "dispute";

/// The type of a resolve.
pub const RESOLVE: &'static str = "resolve";

/// The type of a chargeback.
pub const CHARGEBACK: &'static str = "chargeback";

/// What a transaction asks for.
#[derive(Clone, Copy, Debug, PartialEq, Eq, Structural)]
pub enum TxKind {
    /// Put an amount into the account.
    Deposit,
    /// Take an amount out of the account.
    Withdrawal,
    /// Contest an earlier deposit or withdrawal.
    Dispute,
    /// Close a dispute in the client's favour.
    Resolve,
    /// Close a dispute against the client.
    Chargeback,
}

/// A transaction. A deposit or withdrawal brings its own id and an amount; a
/// dispute, resolve or chargeback carries the id of the transaction it is
/// about, and its amount is not read.
#[derive(Debug)]
pub struct Transaction {
    pub tx_type: String,
    pub client: u16,
    pub tx: u32,
    pub amount: String,
}

/// The kind that a type's text stands for.
pub open spec fn kind_of(text: Seq<char>) -> Option<TxKind> {
    if text == WITHDRAWAL@ {
        Some(TxKind::Withdrawal)
    } else if text == DEPOSIT@ {
        Some(TxKind::Deposit)
    } else if text == DISPUTE@ {
        Some(TxKind::Dispute)
    } else if text == RESOLVE@ {
        Some(TxKind::Resolve)
    } else if text == CHARGEBACK@ {
        Some(TxKind::Chargeback)
    } else {
        None
    }
}

/// Whether `text` reads `word`.
fn reads(text: &String, word: &str) -> (r: bool)
    ensures
        r == (text@ == word@),
{
    *text == word.to_owned()
}

impl Clone for Transaction {
    fn clone(&self) -> (r: Self)
        ensures
            r == *self,
    {
        Transaction {
            tx_type: self.tx_type.clone(),
            client: self.client,
            tx: self.tx,
            amount: self.amount.clone(),
        }
    }
}

impl Transaction {
    /// The kind that the transaction's type stands for, if it is a known one.
    pub open spec fn kind(&self) -> Option<TxKind> {
        kind_of(self.tx_type@)
    }

    /// The amount that the transaction's text holds, if it is a decimal and
    /// not negative.
    pub open spec fn stated_amount(&self) -> Option<Amount> {
        match Amount::parsed(self.amount@) {
            Some(a) => if a.mantissa >= 0 {
                Some(a)
            } else {
                None
            },
            None => None,
        }
    }

    /// The amount that the transaction's text holds, if it is a decimal and
    /// not negative.
    pub fn read_amount(&self) -> (r: Option<Amount>)
        ensures
            r == self.stated_amount(),
            r matches Some(a) ==> a.wf() && a@ >= 0,
    {
        match decimal_from_str(self.amount.as_str()) {
            Some(a) => if a.mantissa >= 0 {
                proof {
                    lemma_sign(a);
                }
                Some(a)
            } else {
                None
            },
            None => None,
        }
    }

    /// The kind that the transaction's type stands for, if it is a known one.
    pub fn classify(&self) -> (r: Option<TxKind>)
        ensures
            r == self.kind(),
    {
        if reads(&self.tx_type, WITHDRAWAL) {
            Some(TxKind::Withdrawal)
        } else if reads(&self.tx_type, DEPOSIT) {
            Some(TxKind::Deposit)
        } else if reads(&self.tx_type, DISPUTE) {
            Some(TxKind::Dispute)
        } else if reads(&self.tx_type, RESOLVE) {
            Some(TxKind::Resolve)
        } else if reads(&self.tx_type, CHARGEBACK) {
            Some(TxKind::Chargeback)
        } else {
            None
        }
    }
}

} // verus!
