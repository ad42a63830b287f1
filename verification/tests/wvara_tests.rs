use dex::wvara::{Error, Event, Wvara};

#[test]
fn fresh_ledger_metadata() {
    let w = Wvara::new();
    assert_eq!(w.name().as_str(), "Wrapped Vara");
    assert_eq!(w.symbol().as_str(), "WVARA");
    assert_eq!(w.decimals(), 12);
    assert_eq!(w.total_supply(), 0);
    assert_eq!(w.balance_of(1), 0);
}

#[test]
fn deposits_credit_the_sender() {
    let mut w = Wvara::new();
    let ev = w.deposit(1, 500).unwrap();
    assert_eq!(ev, Event::Deposit { from: 1, amount: 500 });
    assert_eq!(w.balance_of(1), 500);
    assert_eq!(w.total_supply(), 500);
    w.deposit(1, 100).unwrap();
    assert_eq!(w.balance_of(1), 600);
    assert_eq!(w.total_supply(), 600);
}

#[test]
fn deposit_overflow_is_rejected() {
    let mut w = Wvara::new();
    w.deposit(1, u128::MAX).unwrap();
    assert_eq!(w.deposit(2, 1).unwrap_err(), Error::InsufficientAmount);
    assert_eq!(w.balance_of(2), 0);
}

#[test]
fn withdrawals_debit_the_caller() {
    let mut w = Wvara::new();
    w.deposit(1, 500).unwrap();
    let ev = w.withdraw(1, 9, 200).unwrap();
    assert_eq!(ev, Event::Withdraw { to: 9, amount: 200 });
    assert_eq!(w.balance_of(1), 300);
    assert_eq!(w.total_supply(), 300);
    assert_eq!(w.withdraw(1, 9, 301).unwrap_err(), Error::InsufficientBalance);
}

#[test]
fn transfers_and_allowances() {
    let mut w = Wvara::new();
    w.deposit(1, 500).unwrap();
    let ev = w.transfer(1, 2, 200).unwrap();
    assert_eq!(ev, Event::Transfer { from: 1, to: 2, amount: 200 });
    assert_eq!(w.balance_of(1), 300);
    assert_eq!(w.balance_of(2), 200);
    assert_eq!(w.transfer(1, 2, 301).unwrap_err(), Error::InsufficientBalance);

    let ap = w.approve(2, 7, 150).unwrap();
    assert_eq!(ap, Event::Approve { owner: 2, spender: 7, amount: 150 });
    assert_eq!(w.allowance_of(2, 7), 150);
    assert_eq!(
        w.transfer_from(7, 2, 3, 151).unwrap_err(),
        Error::InsufficientAllowance
    );
    w.transfer_from(7, 2, 3, 150).unwrap();
    assert_eq!(w.balance_of(2), 50);
    assert_eq!(w.balance_of(3), 150);
    assert_eq!(w.allowance_of(2, 7), 0);
}

#[test]
fn self_transfer_changes_nothing() {
    let mut w = Wvara::new();
    w.deposit(1, 500).unwrap();
    w.transfer(1, 1, 300).unwrap();
    assert_eq!(w.balance_of(1), 500);
    assert_eq!(w.total_supply(), 500);
}
