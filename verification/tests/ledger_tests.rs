use proofcart::errors::TransferError;
use proofcart::ledger::Ledger;

#[test]
fn fresh_ledger_is_empty() {
    let l = Ledger::new();
    assert_eq!(l.balance_of(1), 0);
    assert_eq!(l.custody_balance(&"ORD".to_string()), 0);
    assert_eq!(l.now(), 0);
}

#[test]
fn credit_accumulates_per_account() {
    let mut l = Ledger::new();
    l.credit(1, 500).unwrap();
    l.credit(1, 250).unwrap();
    l.credit(2, 40).unwrap();
    assert_eq!(l.balance_of(1), 750);
    assert_eq!(l.balance_of(2), 40);
    assert_eq!(l.balance_of(3), 0);
}

#[test]
fn credit_overflow_changes_nothing() {
    let mut l = Ledger::new();
    l.credit(1, u64::MAX).unwrap();
    assert_eq!(l.credit(1, 1).unwrap_err(), TransferError::ReceiverOverflow);
    assert_eq!(l.balance_of(1), u64::MAX);
}

#[test]
fn transfer_in_and_out_move_exact_amounts() {
    let mut l = Ledger::new();
    let oid = "ORD-1".to_string();
    l.credit(1, 1000).unwrap();
    l.transfer_in(1, &oid, 600).unwrap();
    assert_eq!(l.balance_of(1), 400);
    assert_eq!(l.custody_balance(&oid), 600);
    l.transfer_out(&oid, 2, 600).unwrap();
    assert_eq!(l.custody_balance(&oid), 0);
    assert_eq!(l.balance_of(2), 600);
}

#[test]
fn transfer_in_requires_funds() {
    let mut l = Ledger::new();
    let oid = "ORD-1".to_string();
    l.credit(1, 100).unwrap();
    assert_eq!(
        l.transfer_in(1, &oid, 101).unwrap_err(),
        TransferError::InsufficientFunds
    );
    assert_eq!(l.balance_of(1), 100);
    assert_eq!(l.custody_balance(&oid), 0);
}

#[test]
fn transfer_out_requires_custody() {
    let mut l = Ledger::new();
    let oid = "ORD-1".to_string();
    assert_eq!(
        l.transfer_out(&oid, 2, 1).unwrap_err(),
        TransferError::InsufficientFunds
    );
}

#[test]
fn faulted_ledger_rejects_transfers_but_not_credits() {
    let mut l = Ledger::new();
    let oid = "ORD-1".to_string();
    l.credit(1, 100).unwrap();
    l.set_fail_transfers(true);
    assert_eq!(l.transfer_in(1, &oid, 50).unwrap_err(), TransferError::Faulted);
    assert_eq!(l.transfer_out(&oid, 2, 0).unwrap_err(), TransferError::Faulted);
    l.credit(1, 100).unwrap();
    assert_eq!(l.balance_of(1), 200);
    l.set_fail_transfers(false);
    l.transfer_in(1, &oid, 50).unwrap();
    assert_eq!(l.custody_balance(&oid), 50);
}

#[test]
fn custody_is_kept_per_order() {
    let mut l = Ledger::new();
    let a = "ORD-A".to_string();
    let b = "ORD-B".to_string();
    l.credit(1, 100).unwrap();
    l.transfer_in(1, &a, 30).unwrap();
    l.transfer_in(1, &b, 70).unwrap();
    assert_eq!(l.custody_balance(&a), 30);
    assert_eq!(l.custody_balance(&b), 70);
}

#[test]
fn clock_only_advances() {
    let mut l = Ledger::new();
    l.advance_time(10);
    l.advance_time(0);
    l.advance_time(5);
    assert_eq!(l.now(), 15);
}
