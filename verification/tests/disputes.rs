use payments::{Account, Amount, Ledger, PaymentError, Transaction, UpdateError};
use rust_decimal::Decimal;
use std::collections::{HashMap, HashSet};

// the decimal that an amount stands for
fn decimal(a: Amount) -> Decimal {
    Decimal::from_i128_with_scale(a.mantissa, a.scale)
}

// bootstrap a ledger with one client that has one deposit tx
fn make_ledger(client: u16, tx: u32, amount: Decimal) -> Ledger {
    let mut ledger: Ledger = Default::default();

    assert_eq!(ledger.accounts.len(), 0);

    let deposit = Transaction {
        tx_type: "deposit".to_string(),
        client: client,
        tx: tx,
        amount: amount.to_string(),
    };

    ledger.process(&deposit).expect("Failed to process transaction");

    assert_eq!(ledger.accounts.len(), 1);

    let account: &Account = ledger.accounts.get(&client).expect("Failed to get account for client");

    assert_eq!(decimal(account.available), amount);
    assert_eq!(decimal(account.total), amount);

    ledger
}

// bootstrap a ledger with one client that has one disputed deposit tx
fn make_disputed_ledger(client: u16, tx: u32, amount: Decimal) -> Ledger {
    let mut ledger = make_ledger(client, tx, amount);

    let dispute = Transaction {
        tx_type: "dispute".to_string(),
        client: client,
        tx: tx,
        amount: "".to_string(),
    };

    ledger.process(&dispute).expect("Failed to process dispute");

    assert_eq!(ledger.accounts.len(), 1);

    let account: &Account = ledger.accounts.get(&client).expect("Failed to get account for client");
    assert_eq!(decimal(account.available), Decimal::new(0, 1));
    assert_eq!(decimal(account.held), amount);
    assert_eq!(decimal(account.total), amount);

    ledger
}

#[test]
fn dispute() {
    let client: u16 = 0;
    let tx: u32 = 0;
    let _ledger = make_disputed_ledger(client, tx, Decimal::new(1000, 1));
}

#[test]
fn resolve() {
    let client: u16 = 0;
    let tx: u32 = 0;
    let mut ledger = make_disputed_ledger(client, tx, Decimal::new(1000, 1));

    let resolve = Transaction {
        tx_type: "resolve".to_string(),
        client: client,
        tx: tx,
        amount: "".to_string(),
    };

    ledger.process(&resolve).expect("Failed to process resolve");

    assert_eq!(ledger.accounts.len(), 1);

    let account: &Account = ledger.accounts.get(&client).expect("Failed to get account for client");
    assert_eq!(decimal(account.available), Decimal::new(1000, 1));
    assert_eq!(decimal(account.held), Decimal::new(0, 1));
}

#[test]
fn already_disputed() {
    let client: u16 = 0;
    let tx: u32 = 0;
    let mut ledger = make_disputed_ledger(client, tx, Decimal::new(1000, 1));

    let dispute = Transaction {
        tx_type: "dispute".to_string(),
        client: client,
        tx: tx,
        amount: "".to_string(),
    };

    match ledger.process(&dispute) {
        Ok(()) => assert!(false, "Double dispute succeeded"),
        Err(err) => match err {
            PaymentError::AlreadyDisputed => (),
            _ => assert!(false, "Double dispute failed with wrong error"),
        },
    }

    {
        let account: &Account = ledger.accounts.get(&client).expect("Failed to get account for client 0");
        assert_eq!(decimal(account.available), Decimal::new(0, 1));
    }
}

#[test]
fn not_disputed() {
    let client: u16 = 0;
    let tx: u32 = 0;
    let mut ledger = make_disputed_ledger(client, tx, Decimal::new(1000, 1));

    let resolve = Transaction {
        tx_type: "resolve".to_string(),
        client: client,
        tx: tx,
        amount: "".to_string(),
    };

    ledger.process(&resolve).expect("Failed to process resolve");

    assert_eq!(ledger.accounts.len(), 1);

    let account: &Account = ledger.accounts.get(&client).expect("Failed to get account for client");
    assert_eq!(decimal(account.available), Decimal::new(1000, 1));
    assert_eq!(decimal(account.held), Decimal::new(0, 1));

    match ledger.process(&resolve) {
        Ok(()) => assert!(false, "Not disputed succeeded"),
        Err(err) => match err {
            PaymentError::NotDisputed => (),
            _ => assert!(false, "Not disputed failed with wrong error"),
        },
    }
}

#[test]
fn disputed_wrong_client() {
    let client: u16 = 0;
    let tx: u32 = 0;
    let mut ledger = make_ledger(client, tx, Decimal::new(1000, 1));

    let deposit = Transaction {
        tx_type: "deposit".to_string(),
        client: client + 1,
        tx: tx + 1,
        amount: "100.00".to_string(),
    };

    ledger.process(&deposit).expect("Failed to process deposit");

    assert_eq!(ledger.accounts.len(), 2);

    let dispute = Transaction {
        tx_type: "dispute".to_string(),
        client: client + 1,
        tx: tx,
        amount: "".to_string(),
    };

    match ledger.process(&dispute) {
        Ok(()) => assert!(false, "Disputed wrong client succeeded"),
        Err(err) => match err {
            PaymentError::DisputedWrongClient => (),
            _ => assert!(false, "Disputed wrong client failed with wrong error"),
        },
    }
}

#[test]
fn disputed_tx_not_found() {
    let client: u16 = 0;
    let tx: u32 = 0;
    let mut ledger = make_ledger(client, tx, Decimal::new(1000, 1));

    let dispute = Transaction {
        tx_type: "dispute".to_string(),
        client: client,
        tx: tx + 1,
        amount: "".to_string(),
    };

    match ledger.process(&dispute) {
        Ok(()) => assert!(false, "Disputed tx not found succeeded"),
        Err(err) => match err {
            PaymentError::DisputedTxNotFound => (),
            _ => assert!(false, "Disputed tx not found failed with wrong error"),
        },
    }
}

// Only `Account::update` knows this refusal: it is the one that lets
// deposits alone be disputed.
#[test]
fn invalid_disputed_tx_type() {
    let client: u16 = 0;
    let tx: u32 = 0;
    let mut account = Account::new(client);
    let mut txs: HashMap<u32, Transaction> = HashMap::new();
    let mut disputes: HashSet<u32> = HashSet::new();

    let deposit = Transaction {
        tx_type: "deposit".to_string(),
        client: client,
        tx: tx,
        amount: Decimal::new(1000, 1).to_string(),
    };

    account.update(&deposit, &mut txs, &mut disputes).expect("Failed to process transaction");

    assert_eq!(decimal(account.available), Decimal::new(1000, 1));
    assert_eq!(decimal(account.total), Decimal::new(1000, 1));

    let withdrawal = Transaction {
        tx_type: "withdrawal".to_string(),
        client: client,
        tx: tx + 1,
        amount: "100.00".to_string(),
    };

    account.update(&withdrawal, &mut txs, &mut disputes).expect("Failed to process withdrawal");

    let dispute = Transaction {
        tx_type: "dispute".to_string(),
        client: client,
        tx: tx + 1,
        amount: "".to_string(),
    };

    match account.update(&dispute, &mut txs, &mut disputes) {
        Ok(()) => assert!(false, "InvalidDisputedTxType succeeded"),
        Err(err) => match err {
            UpdateError::InvalidDisputedTxType => (),
            _ => assert!(false, "InvalidDisputedTxType failed with wrong error"),
        },
    }
}
