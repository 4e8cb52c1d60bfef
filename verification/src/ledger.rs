//! All client accounts, and the transactions and disputes that they share.

use crate::account::Account;
use crate::error::PaymentError;
use crate::transaction::Transaction;
use crate::transitions::{GlobalData, State};
use std::collections::HashMap;
use vstd::prelude::*;
use vstd::std_specs::hash::group_hash_axioms;

verus! {

/// The accounts by client, one for each client that a transaction has named,
/// and the data that they share.
#[derive(Debug)]
pub struct Ledger {
    pub accounts: HashMap<u16, Account>,
    pub global: GlobalData,
}

impl Default for Ledger {
    /// No account, nothing recorded, nothing under dispute.
    fn default() -> (r: Self)
        ensures
            r.accounts@ == Map::<u16, Account>::empty(),
            r.history() == Map::<u32, Transaction>::empty(),
            r.disputed() == Set::<u32>::empty(),
            r.wf(),
    {
        Ledger { accounts: HashMap::new(), global: GlobalData::default() }
    }
}

impl Ledger {
    /// The accepted deposits and withdrawals, by id.
    pub open spec fn history(&self) -> Map<u32, Transaction> {
        self.global.history()
    }

    /// The ids under dispute.
    pub open spec fn disputed(&self) -> Set<u32> {
        self.global.disputed()
    }

    /// The account of `client`: the one that is kept, or an empty one for a
    /// client that no transaction has named yet.
    pub open spec fn account(&self, client: u16) -> Account {
        if self.accounts@.contains_key(client) {
            self.accounts@[client]
        } else {
            Account::fresh(client)
        }
    }

    /// Every account is well formed and kept under its own client, and the
    /// shared data is well formed.
    pub open spec fn wf(&self) -> bool {
        &&& forall|client: u16| #[trigger]
            self.accounts@.contains_key(client) ==> {
                &&& self.accounts@[client].wf()
                &&& self.accounts@[client].client == client
            }
        &&& self.global.wf()
    }

    /// The account of `client` with the shared data.
    pub open spec fn state(&self, client: u16) -> State {
        self.global.with(self.account(client))
    }

    /// The balances that `tx` leads to can be given exactly, if `tx` is
    /// accepted at all.
    pub open spec fn admits(&self, tx: Transaction) -> bool {
        self.state(tx.client).admits(tx)
    }

    /// What [`Ledger::process`] leaves of `before`: the client of `tx` has an
    /// account, no other account has changed, and that account and the
    /// shared data are what `tx` leaves behind.
    pub open spec fn follows(&self, before: Ledger, tx: Transaction) -> bool {
        &&& self.accounts@ == before.accounts@.insert(tx.client, self.account(tx.client))
        &&& self.state(tx.client) == before.state(tx.client).after(tx)
    }

    /// The account of the client that `tx` names, as it is kept or as a new
    /// one.
    fn account_for(&self, client: u16) -> (r: Account)
        ensures
            r == self.account(client),
    {
        broadcast use group_hash_axioms;

        match self.accounts.get(&client) {
            Some(account) => *account,
            None => Account::new(client),
        }
    }

    /// Applies `tx` to the account of its client, which is created if the
    /// client is new. A transaction that is refused changes no balance and
    /// nothing in the shared data.
    pub fn process(&mut self, tx: &Transaction) -> (r: Result<(), PaymentError>)
        requires
            old(self).wf(),
            old(self).admits(*tx),
        ensures
            r == old(self).state(tx.client).reply(*tx),
            final(self).follows(*old(self), *tx),
            final(self).wf(),
    {
        broadcast use group_hash_axioms;

        let mut account = self.account_for(tx.client);
        let r = account.process(tx, &mut self.global);
        self.accounts.insert(tx.client, account);
        r
    }

    /// Whether [`Ledger::process`] can take `tx`: whether the balances that
    /// `tx` leads to can be given exactly.
    pub fn can_process(&self, tx: &Transaction) -> (r: bool)
        requires
            self.wf(),
        ensures
            r == self.admits(*tx),
    {
        let account = self.account_for(tx.client);
        account.can_process(tx, &self.global)
    }

    /// [`Ledger::process`] where the balances it leads to can be given
    /// exactly; `None`, with nothing changed, where they cannot.
    pub fn try_process(&mut self, tx: &Transaction) -> (r: Option<Result<(), PaymentError>>)
        requires
            old(self).wf(),
        ensures
            r == (if old(self).admits(*tx) {
                Some(old(self).state(tx.client).reply(*tx))
            } else {
                None
            }),
            r is Some ==> final(self).follows(*old(self), *tx),
            r is None ==> {
                &&& final(self).accounts@ == old(self).accounts@
                &&& final(self).history() == old(self).history()
                &&& final(self).disputed() == old(self).disputed()
            },
            final(self).wf(),
    {
        if self.can_process(tx) {
            Some(self.process(tx))
        } else {
            None
        }
    }
}

} // verus!
