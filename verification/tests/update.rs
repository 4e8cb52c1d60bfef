use payments::{Account, Amount, Effect, GlobalData, PaymentError, Transaction, UpdateError};
use rust_decimal::Decimal;
use std::collections::{HashMap, HashSet};
use std::str::FromStr;

fn tx(tx_type: &str, client: u16, id: u32, amount: &str) -> Transaction {
    Transaction { tx_type: tx_type.to_string(), client, tx: id, amount: amount.to_string() }
}

fn dec(text: &str) -> Decimal {
    Decimal::from_str(text).expect("not a decimal")
}

fn value(a: Amount) -> Decimal {
    Decimal::from_i128_with_scale(a.mantissa, a.scale)
}

fn balances(a: &Account) -> (Decimal, Decimal, Decimal, bool) {
    (value(a.available), value(a.held), value(a.total), a.locked)
}

struct Books {
    account: Account,
    txs: HashMap<u32, Transaction>,
    disputes: HashSet<u32>,
}

fn books(client: u16) -> Books {
    Books { account: Account::new(client), txs: HashMap::new(), disputes: HashSet::new() }
}

fn update(b: &mut Books, t: &Transaction) -> Result<(), UpdateError> {
    b.account.update(t, &mut b.txs, &mut b.disputes)
}

#[test]
fn update_keeps_total_with_deposits_and_withdrawals() {
    let mut b = books(0);
    update(&mut b, &tx("deposit", 0, 0, "100.00")).expect("deposit");
    assert_eq!(balances(&b.account), (dec("100"), dec("0"), dec("100"), false));
    update(&mut b, &tx("withdrawal", 0, 1, "30.5")).expect("withdrawal");
    assert_eq!(balances(&b.account), (dec("69.5"), dec("0"), dec("69.5"), false));
    assert_eq!(b.txs.len(), 2);
    assert_eq!(b.txs.get(&1).expect("recorded").amount, "30.5");
    assert_eq!(b.txs.get(&1).expect("recorded").tx_type, "withdrawal");
    assert!(b.disputes.is_empty());
}

#[test]
fn update_disputes_resolves_and_charges_back_deposits() {
    let mut b = books(0);
    update(&mut b, &tx("deposit", 0, 0, "100.00")).expect("deposit");
    update(&mut b, &tx("deposit", 0, 1, "20")).expect("deposit");
    update(&mut b, &tx("dispute", 0, 0, "")).expect("dispute");
    assert_eq!(balances(&b.account), (dec("20"), dec("100"), dec("120"), false));
    assert!(b.disputes.contains(&0));
    update(&mut b, &tx("resolve", 0, 0, "")).expect("resolve");
    assert_eq!(balances(&b.account), (dec("120"), dec("0"), dec("120"), false));
    assert!(b.disputes.is_empty());
    update(&mut b, &tx("dispute", 0, 1, "")).expect("dispute");
    update(&mut b, &tx("chargeback", 0, 1, "")).expect("chargeback");
    assert_eq!(balances(&b.account), (dec("100"), dec("0"), dec("100"), true));
    assert!(b.disputes.is_empty());
    assert_eq!(b.txs.len(), 2);
}

#[test]
fn update_refuses_as_process_does() {
    let mut b = books(0);
    assert_eq!(update(&mut b, &tx("depoosit", 0, 0, "1")), Err(UpdateError::UnknownTxType));
    assert_eq!(update(&mut b, &tx("deposit", 0, 0, "ABCDE")), Err(UpdateError::BadDecimal));
    update(&mut b, &tx("deposit", 0, 0, "1")).expect("deposit");
    assert_eq!(update(&mut b, &tx("deposit", 0, 0, "1")), Err(UpdateError::DuplicateTransaction));
    assert_eq!(update(&mut b, &tx("withdrawal", 0, 1, "1.01")), Err(UpdateError::InsufficientFunds));
    assert_eq!(update(&mut b, &tx("dispute", 0, 5, "")), Err(UpdateError::DisputedTxNotFound));
    assert_eq!(update(&mut b, &tx("dispute", 1, 0, "")), Err(UpdateError::DisputedWrongClient));
    assert_eq!(update(&mut b, &tx("resolve", 0, 0, "")), Err(UpdateError::NotDisputed));
    update(&mut b, &tx("dispute", 0, 0, "")).expect("dispute");
    assert_eq!(update(&mut b, &tx("dispute", 0, 0, "")), Err(UpdateError::AlreadyDisputed));
    update(&mut b, &tx("chargeback", 0, 0, "")).expect("chargeback");
    assert_eq!(update(&mut b, &tx("deposit", 0, 2, "1")), Err(UpdateError::AccountLocked));
    assert_eq!(balances(&b.account), (dec("0"), dec("0"), dec("0"), true));
    assert_eq!(b.txs.len(), 1);
}

#[test]
fn update_leaves_a_disputed_withdrawal_alone() {
    let mut b = books(0);
    update(&mut b, &tx("deposit", 0, 0, "100")).expect("deposit");
    update(&mut b, &tx("withdrawal", 0, 1, "40")).expect("withdrawal");
    assert_eq!(update(&mut b, &tx("dispute", 0, 1, "")), Err(UpdateError::InvalidDisputedTxType));
    assert!(b.disputes.is_empty());
    assert_eq!(balances(&b.account), (dec("60"), dec("0"), dec("60"), false));

    // a caller that keeps the disputes itself gets the same answer later on
    b.disputes.insert(1);
    assert_eq!(update(&mut b, &tx("resolve", 0, 1, "")), Err(UpdateError::InvalidDisputedTxType));
    assert_eq!(update(&mut b, &tx("chargeback", 0, 1, "")), Err(UpdateError::InvalidDisputedTxType));
    assert!(b.disputes.contains(&1));
    assert_eq!(balances(&b.account), (dec("60"), dec("0"), dec("60"), false));
}

#[test]
fn update_reads_the_amount_of_the_recorded_deposit() {
    let mut b = books(0);
    b.txs.insert(3, tx("deposit", 0, 3, "no amount"));
    b.txs.insert(4, tx("deposit", 0, 4, "2.5"));
    assert_eq!(update(&mut b, &tx("dispute", 0, 3, "")), Err(UpdateError::BadDecimal));
    assert!(b.disputes.is_empty());
    update(&mut b, &tx("dispute", 0, 4, "")).expect("dispute");
    assert_eq!(balances(&b.account), (dec("-2.5"), dec("2.5"), dec("0"), false));
}

#[test]
fn try_update_is_none_where_a_balance_overflows() {
    let mut b = books(0);
    let most = "79228162514264337593543950335";
    assert_eq!(b.account.try_update(&tx("deposit", 0, 0, most), &mut b.txs, &mut b.disputes), Some(Ok(())));
    assert!(!b.account.can_apply(&tx("deposit", 0, 1, "1"), &b.txs, &b.disputes));
    assert_eq!(b.account.try_update(&tx("deposit", 0, 1, "1"), &mut b.txs, &mut b.disputes), None);
    assert_eq!(b.txs.len(), 1);
    assert_eq!(balances(&b.account), (dec(most), dec("0"), dec(most), false));
    assert_eq!(
        b.account.try_update(&tx("withdrawal", 0, 1, "x"), &mut b.txs, &mut b.disputes),
        Some(Err(UpdateError::BadDecimal))
    );
    assert_eq!(b.account.try_update(&tx("dispute", 0, 0, ""), &mut b.txs, &mut b.disputes), Some(Ok(())));
    assert_eq!(balances(&b.account), (dec("0"), dec(most), dec(most), false));
}

#[test]
fn update_descriptions_are_the_variant_names() {
    assert_eq!(UpdateError::AccountLocked.description(), "AccountLocked");
    assert_eq!(UpdateError::BadDecimal.description(), "BadDecimal");
    assert_eq!(UpdateError::UnknownTxType.description(), "UnknownTxType");
    assert_eq!(UpdateError::InsufficientFunds.description(), "InsufficientFunds");
    assert_eq!(UpdateError::DuplicateTransaction.description(), "DuplicateTransaction");
    assert_eq!(UpdateError::AlreadyDisputed.description(), "AlreadyDisputed");
    assert_eq!(UpdateError::NotDisputed.description(), "NotDisputed");
    assert_eq!(UpdateError::DisputedWrongClient.description(), "DisputedWrongClient");
    assert_eq!(UpdateError::DisputedTxNotFound.description(), "DisputedTxNotFound");
    assert_eq!(UpdateError::InvalidDisputedTxType.description(), "InvalidDisputedTxType");
}

#[test]
fn decide_says_what_a_transaction_would_do() {
    let mut b = books(0);
    update(&mut b, &tx("deposit", 0, 0, "100")).expect("deposit");
    update(&mut b, &tx("withdrawal", 0, 1, "40")).expect("withdrawal");
    let before = balances(&b.account);

    match b.account.decide(&tx("deposit", 0, 2, "1.50"), &b.txs, &b.disputes) {
        Ok(Effect::Credit(a)) => assert_eq!((a.mantissa, a.scale), (150, 2)),
        other => panic!("{:?}", other),
    }
    match b.account.decide(&tx("withdrawal", 0, 2, "60"), &b.txs, &b.disputes) {
        Ok(Effect::Debit(a)) => assert_eq!((a.mantissa, a.scale), (60, 0)),
        other => panic!("{:?}", other),
    }
    match b.account.decide(&tx("dispute", 0, 0, ""), &b.txs, &b.disputes) {
        Ok(Effect::Hold(a)) => assert_eq!((a.mantissa, a.scale), (100, 0)),
        other => panic!("{:?}", other),
    }
    match b.account.decide(&tx("dispute", 0, 1, ""), &b.txs, &b.disputes) {
        Ok(Effect::Lock) => (),
        other => panic!("{:?}", other),
    }
    b.disputes.insert(0);
    b.disputes.insert(1);
    match b.account.decide(&tx("resolve", 0, 0, ""), &b.txs, &b.disputes) {
        Ok(Effect::Release(a)) => assert_eq!((a.mantissa, a.scale), (100, 0)),
        other => panic!("{:?}", other),
    }
    match b.account.decide(&tx("chargeback", 0, 0, ""), &b.txs, &b.disputes) {
        Ok(Effect::Forfeit(a)) => assert_eq!((a.mantissa, a.scale), (100, 0)),
        other => panic!("{:?}", other),
    }
    match b.account.decide(&tx("resolve", 0, 1, ""), &b.txs, &b.disputes) {
        Ok(Effect::Unlock) => (),
        other => panic!("{:?}", other),
    }
    match b.account.decide(&tx("chargeback", 0, 1, ""), &b.txs, &b.disputes) {
        Ok(Effect::Lock) => (),
        other => panic!("{:?}", other),
    }
    match b.account.decide(&tx("refund", 0, 1, ""), &b.txs, &b.disputes) {
        Err(PaymentError::UnknownTxType) => (),
        other => panic!("{:?}", other),
    }
    assert_eq!(balances(&b.account), before);
    assert_eq!(b.txs.len(), 2);
}

#[test]
fn applied_moves_the_amount_of_each_effect() {
    let amount = |m: i128, s: u32| Amount::from_parts(m, s).expect("amount");
    let start = Account {
        client: 9,
        available: amount(1000, 1),
        held: amount(250, 1),
        total: amount(1250, 1),
        locked: false,
    };
    let five = amount(500, 2);
    let after = |e: Effect| balances(&start.applied(e).expect("exact"));
    assert_eq!(after(Effect::Credit(five)), (dec("105"), dec("25"), dec("130"), false));
    assert_eq!(after(Effect::Debit(five)), (dec("95"), dec("25"), dec("120"), false));
    assert_eq!(after(Effect::Hold(five)), (dec("95"), dec("30"), dec("125"), false));
    assert_eq!(after(Effect::Release(five)), (dec("105"), dec("20"), dec("125"), false));
    assert_eq!(after(Effect::Forfeit(five)), (dec("100"), dec("20"), dec("120"), true));
    assert_eq!(after(Effect::Lock), (dec("100"), dec("25"), dec("125"), true));
    assert_eq!(after(Effect::Unlock), (dec("100"), dec("25"), dec("125"), false));
    assert_eq!(start.applied(Effect::Lock).expect("exact").client, 9);
}

#[test]
fn account_process_shares_one_history_among_accounts() {
    let mut global = GlobalData::default();
    let mut first = Account::new(1);
    let mut second = Account::new(2);
    first.process(&tx("deposit", 1, 10, "5"), &mut global).expect("deposit");
    assert_eq!(
        second.process(&tx("deposit", 2, 10, "5"), &mut global),
        Err(PaymentError::DuplicateTransaction)
    );
    assert_eq!(second.process(&tx("dispute", 2, 10, ""), &mut global), Err(PaymentError::DisputedWrongClient));
    assert!(first.can_process(&tx("dispute", 1, 10, ""), &global));
    assert_eq!(first.try_process(&tx("dispute", 1, 10, ""), &mut global), Some(Ok(())));
    assert_eq!(second.process(&tx("dispute", 2, 10, ""), &mut global), Err(PaymentError::AlreadyDisputed));
    assert_eq!(balances(&first), (dec("0"), dec("5"), dec("5"), false));
    assert_eq!(balances(&second), (dec("0"), dec("0"), dec("0"), false));
}
