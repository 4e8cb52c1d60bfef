//! The rules by which a transaction is accepted or refused, and what an
//! accepted one leaves behind.
//!
//! [`State`] is all that a transaction reads and changes: one account, the
//! recorded deposits and withdrawals, and the ids under dispute.
//! [`State::outcome`] says what a transaction does there, [`State::after`]
//! what it leaves, and [`State::reply`] what the caller is told. Withdrawals
//! can be disputed as deposits can: a disputed withdrawal locks the account
//! until it is resolved. [`Account::update`] is the stricter variant that
//! lets deposits alone be disputed.

use crate::account::{Account, Effect};
use crate::decimal::decimal_lt;
use crate::error::{PaymentError, UpdateError};
use crate::transaction::{Transaction, TxKind};
use std::collections::{HashMap, HashSet};
use vstd::prelude::*;
use vstd::std_specs::hash::group_hash_axioms;

verus! {

/// What the accounts share: every deposit and withdrawal that was accepted,
/// by its id, and the ids that are under dispute.
#[derive(Debug)]
pub struct GlobalData {
    txs: HashMap<u32, Transaction>,
    disputes: HashSet<u32>,
}

/// One account and the data it shares with the others.
pub struct State {
    pub account: Account,
    pub history: Map<u32, Transaction>,
    pub disputed: Set<u32>,
}

/// The recorded transactions once `tx` is accepted: a deposit or withdrawal
/// is added under its id.
pub open spec fn history_after(tx: Transaction, history: Map<u32, Transaction>) -> Map<
    u32,
    Transaction,
> {
    match tx.kind() {
        Some(TxKind::Deposit) | Some(TxKind::Withdrawal) => history.insert(tx.tx, tx),
        _ => history,
    }
}

/// The ids under dispute once `tx` is accepted: a dispute adds the id it
/// names, a resolve or chargeback removes it.
pub open spec fn disputed_after(tx: Transaction, disputed: Set<u32>) -> Set<u32> {
    match tx.kind() {
        Some(TxKind::Dispute) => disputed.insert(tx.tx),
        Some(TxKind::Resolve) | Some(TxKind::Chargeback) => disputed.remove(tx.tx),
        _ => disputed,
    }
}

/// Every recorded transaction is a deposit or a withdrawal with a decimal
/// amount, recorded under its own id, and only recorded ids are under dispute.
pub open spec fn history_wf(history: Map<u32, Transaction>, disputed: Set<u32>) -> bool {
    &&& forall|id: u32| #[trigger]
        history.contains_key(id) ==> {
            &&& history[id].tx == id
            &&& history[id].stated_amount() is Some
            &&& (history[id].kind() == Some(TxKind::Deposit) || history[id].kind() == Some(
                TxKind::Withdrawal,
            ))
        }
    &&& forall|id: u32| #[trigger] disputed.contains(id) ==> history.contains_key(id)
}

impl State {
    /// The account is well formed, and so is the shared data.
    pub open spec fn wf(self) -> bool {
        &&& self.account.wf()
        &&& history_wf(self.history, self.disputed)
    }

    /// What a deposit or withdrawal does: the first of these that applies.
    /// A locked account refuses it; so does an amount that is no decimal or
    /// is negative, a withdrawal of more than is available, and an id that
    /// is already recorded.
    pub open spec fn entry_outcome(self, kind: TxKind, tx: Transaction) -> Result<
        Effect,
        PaymentError,
    > {
        if self.account.locked {
            Err(PaymentError::AccountLocked)
        } else {
            match tx.stated_amount() {
                None => Err(PaymentError::BadDecimal),
                Some(a) => if kind == TxKind::Withdrawal && self.account.available@ < a@ {
                    Err(PaymentError::InsufficientFunds)
                } else if self.history.contains_key(tx.tx) {
                    Err(PaymentError::DuplicateTransaction)
                } else if kind == TxKind::Withdrawal {
                    Ok(Effect::Debit(a))
                } else {
                    Ok(Effect::Credit(a))
                },
            }
        }
    }

    /// What a dispute, resolve or chargeback does: the first of these that
    /// applies. A dispute is refused for an id that is under dispute, the
    /// other two for one that is not; all three for an id that is not
    /// recorded, and for a transaction of another client. What is left moves
    /// the amount of a deposit, and locks or unlocks for a withdrawal.
    pub open spec fn target_outcome(self, kind: TxKind, tx: Transaction) -> Result<
        Effect,
        PaymentError,
    > {
        if kind == TxKind::Dispute && self.disputed.contains(tx.tx) {
            Err(PaymentError::AlreadyDisputed)
        } else if kind != TxKind::Dispute && !self.disputed.contains(tx.tx) {
            Err(PaymentError::NotDisputed)
        } else if !self.history.contains_key(tx.tx) {
            Err(PaymentError::DisputedTxNotFound)
        } else if self.history[tx.tx].client != tx.client {
            Err(PaymentError::DisputedWrongClient)
        } else if self.history[tx.tx].kind() == Some(TxKind::Deposit) {
            match self.history[tx.tx].stated_amount() {
                None => Err(PaymentError::BadDecimal),
                Some(a) => Ok(
                    match kind {
                        TxKind::Dispute => Effect::Hold(a),
                        TxKind::Resolve => Effect::Release(a),
                        _ => Effect::Forfeit(a),
                    },
                ),
            }
        } else {
            Ok(
                match kind {
                    TxKind::Resolve => Effect::Unlock,
                    _ => Effect::Lock,
                },
            )
        }
    }

    /// What `tx` does to the account, or why it is refused.
    pub open spec fn outcome(self, tx: Transaction) -> Result<Effect, PaymentError> {
        match tx.kind() {
            None => Err(PaymentError::UnknownTxType),
            Some(TxKind::Deposit) => self.entry_outcome(TxKind::Deposit, tx),
            Some(TxKind::Withdrawal) => self.entry_outcome(TxKind::Withdrawal, tx),
            Some(kind) => self.target_outcome(kind, tx),
        }
    }

    /// The balances that `tx` leads to can be given exactly, if `tx` is
    /// accepted at all.
    pub open spec fn admits(self, tx: Transaction) -> bool {
        match self.outcome(tx) {
            Ok(effect) => self.account.after(effect) is Some,
            Err(_) => true,
        }
    }

    /// What the caller is told of `tx`.
    pub open spec fn reply(self, tx: Transaction) -> Result<(), PaymentError> {
        match self.outcome(tx) {
            Ok(_) => Ok(()),
            Err(e) => Err(e),
        }
    }

    /// What `tx` leaves behind. A transaction that is refused changes
    /// nothing; one that is accepted changes the account by its effect and
    /// the shared data by its kind. Where the balances that it leads to
    /// cannot be given exactly, it is not applied and nothing changes.
    pub open spec fn after(self, tx: Transaction) -> State {
        match self.outcome(tx) {
            Ok(effect) => match self.account.after(effect) {
                Some(account) => State {
                    account,
                    history: history_after(tx, self.history),
                    disputed: disputed_after(tx, self.disputed),
                },
                None => self,
            },
            Err(_) => self,
        }
    }

    /// What `tx` does where only deposits can be disputed: as
    /// [`State::outcome`], but a dispute, resolve or chargeback that names
    /// a withdrawal is refused.
    pub open spec fn strict_outcome(self, tx: Transaction) -> Result<Effect, UpdateError> {
        match self.outcome(tx) {
            Err(e) => Err(e.widened()),
            Ok(Effect::Lock) | Ok(Effect::Unlock) => Err(UpdateError::InvalidDisputedTxType),
            Ok(effect) => Ok(effect),
        }
    }

    /// What the caller is told of `tx` where only deposits can be disputed.
    pub open spec fn strict_reply(self, tx: Transaction) -> Result<(), UpdateError> {
        match self.strict_outcome(tx) {
            Ok(_) => Ok(()),
            Err(e) => Err(e),
        }
    }

    /// What `tx` leaves behind where only deposits can be disputed.
    pub open spec fn strict_after(self, tx: Transaction) -> State {
        match self.strict_outcome(tx) {
            Ok(_) => self.after(tx),
            Err(_) => self,
        }
    }
}

impl GlobalData {
    /// The accepted deposits and withdrawals, by id.
    pub closed spec fn history(&self) -> Map<u32, Transaction> {
        self.txs@
    }

    /// The ids under dispute.
    pub closed spec fn disputed(&self) -> Set<u32> {
        self.disputes@
    }

    /// See [`history_wf`].
    pub open spec fn wf(&self) -> bool {
        history_wf(self.history(), self.disputed())
    }

    /// `account` with this shared data.
    pub open spec fn with(&self, account: Account) -> State {
        State { account, history: self.history(), disputed: self.disputed() }
    }
}

impl Default for GlobalData {
    /// Nothing recorded, nothing under dispute.
    fn default() -> (r: Self)
        ensures
            r.history() == Map::<u32, Transaction>::empty(),
            r.disputed() == Set::<u32>::empty(),
            r.wf(),
    {
        GlobalData { txs: HashMap::new(), disputes: HashSet::new() }
    }
}

/// The same reason among those of [`UpdateError`].
fn widen(e: PaymentError) -> (r: UpdateError)
    ensures
        r == e.widened(),
{
    match e {
        PaymentError::AccountLocked => UpdateError::AccountLocked,
        PaymentError::BadDecimal => UpdateError::BadDecimal,
        PaymentError::UnknownTxType => UpdateError::UnknownTxType,
        PaymentError::InsufficientFunds => UpdateError::InsufficientFunds,
        PaymentError::DuplicateTransaction => UpdateError::DuplicateTransaction,
        PaymentError::AlreadyDisputed => UpdateError::AlreadyDisputed,
        PaymentError::NotDisputed => UpdateError::NotDisputed,
        PaymentError::DisputedWrongClient => UpdateError::DisputedWrongClient,
        PaymentError::DisputedTxNotFound => UpdateError::DisputedTxNotFound,
    }
}

/// Leaves in the shared data what the acceptance of `tx` leaves there.
fn commit(tx: &Transaction, txs: &mut HashMap<u32, Transaction>, disputes: &mut HashSet<u32>)
    ensures
        final(txs)@ == history_after(*tx, old(txs)@),
        final(disputes)@ == disputed_after(*tx, old(disputes)@),
{
    broadcast use group_hash_axioms;

    match tx.classify() {
        Some(TxKind::Deposit) | Some(TxKind::Withdrawal) => {
            txs.insert(tx.tx, tx.clone());
        },
        Some(TxKind::Dispute) => {
            disputes.insert(tx.tx);
        },
        Some(TxKind::Resolve) | Some(TxKind::Chargeback) => {
            disputes.remove(&tx.tx);
        },
        None => {},
    }
}

impl Account {
    /// This account with the given shared data.
    pub open spec fn among(self, history: Map<u32, Transaction>, disputed: Set<u32>) -> State {
        State { account: self, history, disputed }
    }

    /// What a deposit or withdrawal does to this account, or why it is
    /// refused.
    fn decide_entry(&self, kind: TxKind, tx: &Transaction, txs: &HashMap<u32, Transaction>) -> (r:
        Result<Effect, PaymentError>)
        requires
            self.wf(),
            kind == TxKind::Deposit || kind == TxKind::Withdrawal,
        ensures
            r == self.among(txs@, Set::empty()).entry_outcome(kind, *tx),
            r matches Ok(effect) ==> effect.wf(),
    {
        broadcast use group_hash_axioms;

        if self.locked {
            return Err(PaymentError::AccountLocked);
        }
        let amount = match tx.read_amount() {
            Some(a) => a,
            None => {
                return Err(PaymentError::BadDecimal);
            },
        };
        if kind == TxKind::Withdrawal && decimal_lt(self.available, amount) {
            return Err(PaymentError::InsufficientFunds);
        }
        if txs.contains_key(&tx.tx) {
            return Err(PaymentError::DuplicateTransaction);
        }
        if kind == TxKind::Withdrawal {
            Ok(Effect::Debit(amount))
        } else {
            Ok(Effect::Credit(amount))
        }
    }

    /// What a dispute, resolve or chargeback does, or why it is refused.
    fn decide_target(
        &self,
        kind: TxKind,
        tx: &Transaction,
        txs: &HashMap<u32, Transaction>,
        disputes: &HashSet<u32>,
    ) -> (r: Result<Effect, PaymentError>)
        requires
            kind == TxKind::Dispute || kind == TxKind::Resolve || kind == TxKind::Chargeback,
        ensures
            r == self.among(txs@, disputes@).target_outcome(kind, *tx),
            r matches Ok(effect) ==> effect.wf(),
    {
        broadcast use group_hash_axioms;

        let under_dispute = disputes.contains(&tx.tx);
        if kind == TxKind::Dispute {
            if under_dispute {
                return Err(PaymentError::AlreadyDisputed);
            }
        } else if !under_dispute {
            return Err(PaymentError::NotDisputed);
        }
        let target = match txs.get(&tx.tx) {
            Some(target) => target,
            None => {
                return Err(PaymentError::DisputedTxNotFound);
            },
        };
        if target.client != tx.client {
            return Err(PaymentError::DisputedWrongClient);
        }
        match target.classify() {
            Some(TxKind::Deposit) => match target.read_amount() {
                None => Err(PaymentError::BadDecimal),
                Some(amount) => Ok(
                    match kind {
                        TxKind::Dispute => Effect::Hold(amount),
                        TxKind::Resolve => Effect::Release(amount),
                        _ => Effect::Forfeit(amount),
                    },
                ),
            },
            _ => Ok(
                match kind {
                    TxKind::Resolve => Effect::Unlock,
                    _ => Effect::Lock,
                },
            ),
        }
    }

    /// What `tx` does to this account, or why it is refused. Nothing is
    /// changed.
    pub fn decide(
        &self,
        tx: &Transaction,
        txs: &HashMap<u32, Transaction>,
        disputes: &HashSet<u32>,
    ) -> (r: Result<Effect, PaymentError>)
        requires
            self.wf(),
        ensures
            r == self.among(txs@, disputes@).outcome(*tx),
            r matches Ok(effect) ==> effect.wf(),
    {
        match tx.classify() {
            None => Err(PaymentError::UnknownTxType),
            Some(TxKind::Deposit) => self.decide_entry(TxKind::Deposit, tx, txs),
            Some(TxKind::Withdrawal) => self.decide_entry(TxKind::Withdrawal, tx, txs),
            Some(kind) => self.decide_target(kind, tx, txs, disputes),
        }
    }

    /// Whether the balances that `tx` leads to can be given exactly. It is
    /// `true` for a transaction that is refused: that leads to no balance.
    pub fn can_apply(
        &self,
        tx: &Transaction,
        txs: &HashMap<u32, Transaction>,
        disputes: &HashSet<u32>,
    ) -> (r: bool)
        requires
            self.wf(),
        ensures
            r == self.among(txs@, disputes@).admits(*tx),
    {
        match self.decide(tx, txs, disputes) {
            Ok(effect) => self.applied(effect).is_some(),
            Err(_) => true,
        }
    }

    /// Applies `tx` where only deposits can be disputed: a dispute, resolve
    /// or chargeback that names a withdrawal is refused. A transaction that
    /// is refused changes nothing; one that is accepted changes the account
    /// by its effect and the shared data by its kind.
    pub fn update(
        &mut self,
        tx: &Transaction,
        txs: &mut HashMap<u32, Transaction>,
        disputes: &mut HashSet<u32>,
    ) -> (r: Result<(), UpdateError>)
        requires
            old(self).wf(),
            old(self).among(old(txs)@, old(disputes)@).admits(*tx),
        ensures
            r == old(self).among(old(txs)@, old(disputes)@).strict_reply(*tx),
            final(self).among(final(txs)@, final(disputes)@) == old(self).among(
                old(txs)@,
                old(disputes)@,
            ).strict_after(*tx),
            old(self).among(old(txs)@, old(disputes)@).strict_outcome(*tx) matches Ok(effect)
                ==> final(self)@ == old(self)@.after(effect),
            final(self).wf(),
            final(self).total@ == final(self).available@ + final(self).held@,
            history_wf(old(txs)@, old(disputes)@) ==> history_wf(final(txs)@, final(disputes)@),
    {
        match self.decide(tx, txs, disputes) {
            Err(e) => Err(widen(e)),
            Ok(Effect::Lock) | Ok(Effect::Unlock) => Err(UpdateError::InvalidDisputedTxType),
            Ok(effect) => {
                let next = self.applied(effect).unwrap();
                *self = next;
                commit(tx, txs, disputes);
                Ok(())
            },
        }
    }

    /// [`Account::update`] where the balances it leads to can be given
    /// exactly; `None`, with nothing changed, where they cannot.
    pub fn try_update(
        &mut self,
        tx: &Transaction,
        txs: &mut HashMap<u32, Transaction>,
        disputes: &mut HashSet<u32>,
    ) -> (r: Option<Result<(), UpdateError>>)
        requires
            old(self).wf(),
        ensures
            r == (if old(self).among(old(txs)@, old(disputes)@).admits(*tx) {
                Some(old(self).among(old(txs)@, old(disputes)@).strict_reply(*tx))
            } else {
                None
            }),
            final(self).among(final(txs)@, final(disputes)@) == old(self).among(
                old(txs)@,
                old(disputes)@,
            ).strict_after(*tx),
            final(self).wf(),
            history_wf(old(txs)@, old(disputes)@) ==> history_wf(final(txs)@, final(disputes)@),
    {
        if self.can_apply(tx, txs, disputes) {
            Some(self.update(tx, txs, disputes))
        } else {
            None
        }
    }

    /// Applies `tx`. A transaction that is refused changes nothing; one that
    /// is accepted changes the account by its effect and the shared data by
    /// its kind: a deposit or withdrawal is recorded, a dispute puts the id
    /// it names under dispute, a resolve or chargeback takes it out.
    pub fn process(&mut self, tx: &Transaction, global: &mut GlobalData) -> (r: Result<
        (),
        PaymentError,
    >)
        requires
            old(self).wf(),
            old(global).wf(),
            old(global).with(*old(self)).admits(*tx),
        ensures
            r == old(global).with(*old(self)).reply(*tx),
            final(global).with(*final(self)) == old(global).with(*old(self)).after(*tx),
            old(global).with(*old(self)).outcome(*tx) matches Ok(effect) ==> final(self)@ == old(
                self,
            )@.after(effect),
            final(self).wf(),
            final(self).total@ == final(self).available@ + final(self).held@,
            final(global).wf(),
    {
        match self.decide(tx, &global.txs, &global.disputes) {
            Err(e) => Err(e),
            Ok(effect) => {
                let next = self.applied(effect).unwrap();
                *self = next;
                commit(tx, &mut global.txs, &mut global.disputes);
                Ok(())
            },
        }
    }

    /// Whether [`Account::process`] can take `tx`: whether the balances that
    /// `tx` leads to can be given exactly.
    pub fn can_process(&self, tx: &Transaction, global: &GlobalData) -> (r: bool)
        requires
            self.wf(),
        ensures
            r == global.with(*self).admits(*tx),
    {
        self.can_apply(tx, &global.txs, &global.disputes)
    }

    /// [`Account::process`] where the balances it leads to can be given
    /// exactly; `None`, with nothing changed, where they cannot.
    pub fn try_process(&mut self, tx: &Transaction, global: &mut GlobalData) -> (r: Option<
        Result<(), PaymentError>,
    >)
        requires
            old(self).wf(),
            old(global).wf(),
        ensures
            r == (if old(global).with(*old(self)).admits(*tx) {
                Some(old(global).with(*old(self)).reply(*tx))
            } else {
                None
            }),
            final(global).with(*final(self)) == old(global).with(*old(self)).after(*tx),
            final(self).wf(),
            final(global).wf(),
    {
        if self.can_process(tx, global) {
            Some(self.process(tx, global))
        } else {
            None
        }
    }
}

} // verus!
