//! What holds of every account, whatever the transactions that reach it.

use crate::account::{Account, Effect};
use crate::amount::{lemma_minus_exact, lemma_plus_exact};
use crate::error::PaymentError;
use crate::transaction::{Transaction, TxKind};
use crate::transitions::State;
use vstd::prelude::*;

verus! {

/// An effect changes the balances as numbers by what it says: where
/// [`Account::after`] gives an account, that account is well formed and its
/// balances are those of [`crate::Balances::after`].
pub proof fn lemma_effect_is_exact(account: Account, effect: Effect)
    requires
        account.wf(),
        effect.wf(),
    ensures
        account.after(effect) matches Some(next) ==> next.wf() && next@ == account@.after(effect),
{
    match effect {
        Effect::Credit(a) => {
            lemma_plus_exact(account.available, a);
            lemma_plus_exact(account.total, a);
        },
        Effect::Debit(a) => {
            lemma_minus_exact(account.available, a);
            lemma_minus_exact(account.total, a);
        },
        Effect::Hold(a) => {
            lemma_minus_exact(account.available, a);
            lemma_plus_exact(account.held, a);
        },
        Effect::Release(a) => {
            lemma_plus_exact(account.available, a);
            lemma_minus_exact(account.held, a);
        },
        Effect::Forfeit(a) => {
            lemma_minus_exact(account.held, a);
            lemma_minus_exact(account.total, a);
        },
        Effect::Lock => {},
        Effect::Unlock => {},
    }
}

/// The amount that an accepted transaction moves is well formed.
pub proof fn lemma_outcome_wf(s: State, tx: Transaction)
    ensures
        s.outcome(tx) matches Ok(effect) ==> effect.wf(),
{
}

/// Whatever the transaction, it leaves a well-formed state behind; in
/// particular `total` is `available + held` after it as before it.
pub proof fn lemma_total_is_available_plus_held(s: State, tx: Transaction)
    requires
        s.wf(),
    ensures
        s.after(tx).wf(),
        s.after(tx).account.total@ == s.after(tx).account.available@ + s.after(
            tx,
        ).account.held@,
{
    lemma_outcome_wf(s, tx);
    if let Ok(effect) = s.outcome(tx) {
        lemma_effect_is_exact(s.account, effect);
    }
}

/// A transaction that is refused changes nothing.
pub proof fn lemma_refusal_changes_nothing(s: State, tx: Transaction)
    ensures
        s.reply(tx) is Err ==> s.after(tx) == s,
{
}

/// A deposit and then a withdrawal of the same amount, both accepted, bring
/// `available` and `total` back to what they were; `held` was not touched.
pub proof fn lemma_deposit_then_withdrawal_restores(
    s: State,
    deposit: Transaction,
    withdrawal: Transaction,
)
    requires
        s.wf(),
        deposit.kind() == Some(TxKind::Deposit),
        withdrawal.kind() == Some(TxKind::Withdrawal),
        deposit.stated_amount() is Some,
        withdrawal.stated_amount() is Some,
        deposit.stated_amount().unwrap()@ == withdrawal.stated_amount().unwrap()@,
        s.reply(deposit) is Ok,
        s.admits(deposit),
        s.after(deposit).reply(withdrawal) is Ok,
        s.after(deposit).admits(withdrawal),
    ensures
        s.after(deposit).after(withdrawal).account.available@ == s.account.available@,
        s.after(deposit).after(withdrawal).account.total@ == s.account.total@,
        s.after(deposit).after(withdrawal).account.held@ == s.account.held@,
{
    let mid = s.after(deposit);
    lemma_outcome_wf(s, deposit);
    lemma_effect_is_exact(s.account, s.outcome(deposit).unwrap());
    lemma_outcome_wf(mid, withdrawal);
    lemma_effect_is_exact(mid.account, mid.outcome(withdrawal).unwrap());
}

/// A withdrawal is refused for insufficient funds exactly where it reaches
/// an unlocked account with an amount that is a decimal and exceeds what is
/// available. The refusal changes nothing.
pub proof fn lemma_insufficient_funds(s: State, tx: Transaction)
    requires
        tx.kind() == Some(TxKind::Withdrawal),
    ensures
        s.reply(tx) == Err::<(), PaymentError>(PaymentError::InsufficientFunds) <==> (
        !s.account.locked && tx.stated_amount() is Some && tx.stated_amount().unwrap()@
            > s.account.available@),
        s.reply(tx) == Err::<(), PaymentError>(PaymentError::InsufficientFunds) ==> s.after(tx)
            == s,
{
}

/// After a deposit was accepted, a second deposit under the same id, with
/// an amount that is a decimal, is refused as a duplicate and changes
/// nothing.
pub proof fn lemma_second_deposit_is_duplicate(s: State, first: Transaction, second: Transaction)
    requires
        s.wf(),
        first.kind() == Some(TxKind::Deposit),
        second.kind() == Some(TxKind::Deposit),
        first.tx == second.tx,
        s.reply(first) is Ok,
        s.admits(first),
        second.stated_amount() is Some,
    ensures
        s.after(first).reply(second) == Err::<(), PaymentError>(
            PaymentError::DuplicateTransaction,
        ),
        s.after(first).after(second) == s.after(first),
{
}

/// A dispute of a deposit and then its resolve, both accepted, bring
/// `available` and `held` back to what they were, and `total` is the same
/// before, between and after.
pub proof fn lemma_dispute_then_resolve_restores(
    s: State,
    dispute: Transaction,
    resolve: Transaction,
)
    requires
        s.wf(),
        dispute.kind() == Some(TxKind::Dispute),
        resolve.kind() == Some(TxKind::Resolve),
        resolve.tx == dispute.tx,
        s.history.contains_key(dispute.tx),
        s.history[dispute.tx].kind() == Some(TxKind::Deposit),
        s.reply(dispute) is Ok,
        s.admits(dispute),
        s.after(dispute).reply(resolve) is Ok,
        s.after(dispute).admits(resolve),
    ensures
        s.after(dispute).after(resolve).account.available@ == s.account.available@,
        s.after(dispute).after(resolve).account.held@ == s.account.held@,
        s.after(dispute).account.total@ == s.account.total@,
        s.after(dispute).after(resolve).account.total@ == s.account.total@,
        s.after(dispute).after(resolve).account.locked == s.account.locked,
{
    let mid = s.after(dispute);
    lemma_outcome_wf(s, dispute);
    lemma_effect_is_exact(s.account, s.outcome(dispute).unwrap());
    lemma_outcome_wf(mid, resolve);
    lemma_effect_is_exact(mid.account, mid.outcome(resolve).unwrap());
}

/// A dispute of a deposit and then its chargeback, both accepted: the
/// chargeback takes the deposit's amount from `held` and from `total`,
/// leaves `available` as the dispute left it, and locks the account.
pub proof fn lemma_dispute_then_chargeback_forfeits(
    s: State,
    dispute: Transaction,
    chargeback: Transaction,
)
    requires
        s.wf(),
        dispute.kind() == Some(TxKind::Dispute),
        chargeback.kind() == Some(TxKind::Chargeback),
        chargeback.tx == dispute.tx,
        s.history.contains_key(dispute.tx),
        s.history[dispute.tx].kind() == Some(TxKind::Deposit),
        s.reply(dispute) is Ok,
        s.admits(dispute),
        s.after(dispute).reply(chargeback) is Ok,
        s.after(dispute).admits(chargeback),
    ensures
        s.history[dispute.tx].stated_amount() is Some,
        s.after(dispute).after(chargeback).account.held@ == s.after(dispute).account.held@
            - s.history[dispute.tx].stated_amount().unwrap()@,
        s.after(dispute).after(chargeback).account.total@ == s.after(dispute).account.total@
            - s.history[dispute.tx].stated_amount().unwrap()@,
        s.after(dispute).after(chargeback).account.available@ == s.after(
            dispute,
        ).account.available@,
        s.after(dispute).after(chargeback).account.locked,
        s.after(dispute).after(chargeback).account.held@ == s.account.held@,
{
    let mid = s.after(dispute);
    lemma_outcome_wf(s, dispute);
    lemma_effect_is_exact(s.account, s.outcome(dispute).unwrap());
    lemma_outcome_wf(mid, chargeback);
    lemma_effect_is_exact(mid.account, mid.outcome(chargeback).unwrap());
}

/// The refusals of the dispute protocol. A dispute of an id that is not
/// recorded is refused as not found; a dispute of an id that is under
/// dispute, as already disputed; a dispute of another client's
/// transaction that is not under dispute, as the wrong client's; and a
/// resolve or chargeback of an id that is not under dispute, as not
/// disputed. None of them changes anything.
pub proof fn lemma_dispute_refusals(s: State, tx: Transaction)
    requires
        s.wf(),
    ensures
        tx.kind() == Some(TxKind::Dispute) && !s.history.contains_key(tx.tx) ==> s.reply(tx)
            == Err::<(), PaymentError>(PaymentError::DisputedTxNotFound),
        tx.kind() == Some(TxKind::Dispute) && s.disputed.contains(tx.tx) ==> s.reply(tx) == Err::<
            (),
            PaymentError,
        >(PaymentError::AlreadyDisputed),
        tx.kind() == Some(TxKind::Dispute) && s.history.contains_key(tx.tx) && s.history[tx.tx].client
            != tx.client && !s.disputed.contains(tx.tx) ==> s.reply(tx) == Err::<(), PaymentError>(
            PaymentError::DisputedWrongClient,
        ),
        (tx.kind() == Some(TxKind::Resolve) || tx.kind() == Some(TxKind::Chargeback))
            && !s.disputed.contains(tx.tx) ==> s.reply(tx) == Err::<(), PaymentError>(
            PaymentError::NotDisputed,
        ),
        s.reply(tx) is Err ==> s.after(tx) == s,
{
}

} // verus!
