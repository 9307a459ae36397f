//! Account-level arithmetic, the lock, and the fixed-point rendering of
//! balances at the output boundary.

use ledger::account::{Account, LockReason};
use ledger::render::render_balance;

#[test]
fn test_account_arithmetic() {
    let mut account = Account::new();
    assert_eq!(account.available, 0);
    assert_eq!(account.held, 0);
    assert!(account.locked.is_none());

    account.deposit(120000);
    assert_eq!(account.available, 120000);
    assert_eq!(account.total(), 120000);

    account.withdraw(20000);
    assert_eq!(account.available, 100000);
    assert_eq!(account.total(), 100000);

    account.freeze_funds(30000);
    assert_eq!(account.available, 70000);
    assert_eq!(account.held, 30000);
    assert_eq!(account.total(), 100000);

    account.thaw_funds(30000);
    assert_eq!(account.available, 100000);
    assert_eq!(account.held, 0);
    assert_eq!(account.total(), 100000);

    account.freeze_funds(100000);
    account.chargeback(100000);
    assert_eq!(account.available, 0);
    assert_eq!(account.held, 0);
    assert_eq!(account.total(), 0);
}

#[test]
fn test_account_lock() {
    let mut account = Account::new();
    account.lock_account(LockReason::Chargeback);
    let locked = account.locked.expect("account should be locked");
    assert_eq!(locked.reason_for_lock, LockReason::Chargeback);

    account.unlock_account();
    assert!(account.locked.is_none());
}

#[test]
fn test_render_balance() {
    assert_eq!(render_balance(70000), b"7.0000".to_vec());
    assert_eq!(render_balance(0), b"0.0000".to_vec());
    assert_eq!(render_balance(50000), b"5.0000".to_vec());
    assert_eq!(render_balance(123456789), b"12345.6789".to_vec());
    assert_eq!(render_balance(-5), b"-0.0005".to_vec());
    assert_eq!(render_balance(-123450), b"-12.3450".to_vec());
    assert_eq!(render_balance(i64::MAX), b"922337203685477.5807".to_vec());
    assert_eq!(render_balance(i64::MIN), b"-922337203685477.5808".to_vec());
}
