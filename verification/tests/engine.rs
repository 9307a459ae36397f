//! End-to-end scenarios for the ledger engine: the documented sample run,
//! the dispute lifecycle, every rejection reason, and conservation of
//! funds. Amounts are fixed-point: 10000 units stand for 1.0.

use ledger::account_manager::AccountManager;
use ledger::error::LedgerError;
use ledger::render::render_balance;
use ledger::transaction::{
    Chargeback, Deposit, Dispute, Resolve, TransactionCommand, Withdrawal,
};

fn deposit(client_id: u16, tx_id: u32, amount: u64) -> TransactionCommand {
    TransactionCommand::Deposit(Deposit { client_id, tx_id, amount })
}

fn withdrawal(client_id: u16, tx_id: u32, amount: u64) -> TransactionCommand {
    TransactionCommand::Withdrawal(Withdrawal { client_id, tx_id, amount })
}

fn dispute(client_id: u16, tx_id: u32) -> TransactionCommand {
    TransactionCommand::Dispute(Dispute { client_id, tx_id })
}

fn resolve(client_id: u16, tx_id: u32) -> TransactionCommand {
    TransactionCommand::Resolve(Resolve { client_id, tx_id })
}

fn chargeback(client_id: u16, tx_id: u32) -> TransactionCommand {
    TransactionCommand::Chargeback(Chargeback { client_id, tx_id })
}

#[test]
fn test_account_manager() {
    let mut manager = AccountManager::new();
    manager.process(&deposit(1, 1, 10000)).unwrap();
    manager.process(&withdrawal(1, 2, 5000)).unwrap();

    let accounts = manager.into_accounts();
    let account = accounts.get(&1).expect("Account not found");
    assert_eq!(account.available, 5000);
    assert_eq!(account.held, 0);
    assert_eq!(account.total(), 5000);
    assert!(account.locked.is_none());
}

#[test]
fn test_end_to_end_scenario() {
    let mut manager = AccountManager::new();
    let commands = vec![
        deposit(1, 1, 100000),
        deposit(2, 2, 50000),
        deposit(1, 3, 50000),
        withdrawal(1, 4, 30000),
        dispute(1, 1),
        resolve(1, 1),
        dispute(1, 3),
        chargeback(1, 3),
    ];
    manager.run(&commands);

    let one = manager.get_account(1).unwrap();
    assert_eq!(one.available, 70000);
    assert_eq!(one.held, 0);
    assert_eq!(one.total(), 70000);
    assert!(one.locked.is_some());

    let two = manager.get_account(2).unwrap();
    assert_eq!(two.available, 50000);
    assert_eq!(two.held, 0);
    assert_eq!(two.total(), 50000);
    assert!(two.locked.is_none());

    // The snapshot rendered at the output boundary.
    assert_eq!(render_balance(one.available), b"7.0000".to_vec());
    assert_eq!(render_balance(one.held), b"0.0000".to_vec());
    assert_eq!(render_balance(one.total()), b"7.0000".to_vec());
    assert_eq!(render_balance(two.available), b"5.0000".to_vec());
    assert_eq!(render_balance(two.total()), b"5.0000".to_vec());
}

#[test]
fn test_insufficient_funds() {
    let mut manager = AccountManager::new();
    manager.process(&deposit(1, 1, 50000)).unwrap();

    let rejected = manager.process(&withdrawal(1, 2, 50100));
    assert_eq!(rejected, Err(LedgerError::InsufficientFunds));
    let account = manager.get_account(1).unwrap();
    assert_eq!(account.available, 50000);
    assert_eq!(account.held, 0);

    manager.process(&withdrawal(1, 3, 50000)).unwrap();
    let account = manager.get_account(1).unwrap();
    assert_eq!(account.available, 0);
    assert_eq!(account.total(), 0);
}

#[test]
fn test_dispute_reversibility() {
    let mut manager = AccountManager::new();
    manager.process(&deposit(1, 1, 30000)).unwrap();
    manager.process(&withdrawal(1, 2, 10000)).unwrap();

    let before = manager.get_account(1).unwrap();
    manager.process(&dispute(1, 1)).unwrap();
    let frozen = manager.get_account(1).unwrap();
    assert_eq!(frozen.available, before.available - 30000);
    assert_eq!(frozen.held, 30000);
    assert_eq!(frozen.total(), before.total());

    manager.process(&resolve(1, 1)).unwrap();
    let after = manager.get_account(1).unwrap();
    assert_eq!(after.available, before.available);
    assert_eq!(after.held, before.held);
    assert!(after.locked.is_none());
}

#[test]
fn test_chargeback_finality() {
    let mut manager = AccountManager::new();
    manager.process(&deposit(1, 1, 40000)).unwrap();
    manager.process(&dispute(1, 1)).unwrap();
    manager.process(&chargeback(1, 1)).unwrap();

    let account = manager.get_account(1).unwrap();
    assert_eq!(account.available, 0);
    assert_eq!(account.held, 0);
    assert_eq!(account.total(), 0);
    assert!(account.locked.is_some());

    // Every later mutating command against the locked account is rejected
    // without effect.
    assert_eq!(manager.process(&deposit(1, 2, 10000)), Err(LedgerError::AccountLocked));
    assert_eq!(manager.process(&withdrawal(1, 3, 1)), Err(LedgerError::AccountLocked));
    assert_eq!(manager.process(&dispute(1, 1)), Err(LedgerError::TransactionClosed));
    let account = manager.get_account(1).unwrap();
    assert_eq!(account.available, 0);
    assert_eq!(account.held, 0);
    assert!(account.locked.is_some());
}

#[test]
fn test_dispute_idempotent_rejection() {
    let mut manager = AccountManager::new();
    manager.process(&deposit(1, 1, 25000)).unwrap();
    manager.process(&dispute(2, 1)).unwrap();

    let once = manager.get_account(1).unwrap();
    let rejected = manager.process(&dispute(2, 1));
    assert_eq!(rejected, Err(LedgerError::AlreadyDisputed));
    let twice = manager.get_account(1).unwrap();
    assert_eq!(twice.available, once.available);
    assert_eq!(twice.held, once.held);
}

#[test]
fn test_dispute_acts_on_depositing_client() {
    // The raiser of the dispute differs from the depositing client; the
    // depositing client's funds are the ones frozen.
    let mut manager = AccountManager::new();
    manager.process(&deposit(1, 1, 20000)).unwrap();
    manager.process(&deposit(2, 2, 70000)).unwrap();
    manager.process(&dispute(2, 1)).unwrap();

    let one = manager.get_account(1).unwrap();
    assert_eq!(one.available, 0);
    assert_eq!(one.held, 20000);
    let two = manager.get_account(2).unwrap();
    assert_eq!(two.available, 70000);
    assert_eq!(two.held, 0);
}

#[test]
fn test_dispute_can_overdraw_available() {
    // Disputing a deposit that was partly withdrawn drives available
    // negative while the total stays consistent.
    let mut manager = AccountManager::new();
    manager.process(&deposit(1, 1, 100000)).unwrap();
    manager.process(&withdrawal(1, 2, 80000)).unwrap();
    manager.process(&dispute(1, 1)).unwrap();

    let account = manager.get_account(1).unwrap();
    assert_eq!(account.available, -80000);
    assert_eq!(account.held, 100000);
    assert_eq!(account.total(), 20000);
}

#[test]
fn test_conservation() {
    // Deposits and withdrawals alone: applied flow equals the summed
    // totals, rejected commands contribute nothing.
    let mut manager = AccountManager::new();
    manager.process(&deposit(1, 1, 30000)).unwrap();
    manager.process(&deposit(2, 2, 20000)).unwrap();
    manager.process(&withdrawal(1, 3, 10000)).unwrap();
    assert!(manager.process(&withdrawal(3, 4, 10000)).is_err());
    assert!(manager.process(&withdrawal(2, 5, 999999)).is_err());
    manager.process(&withdrawal(2, 6, 20000)).unwrap();

    let accounts = manager.into_accounts();
    let summed: i64 = accounts.values().map(|account| account.total()).sum();
    assert_eq!(summed, 30000 + 20000 - 10000 - 20000);
}

#[test]
fn test_no_such_account() {
    let mut manager = AccountManager::new();
    assert_eq!(manager.process(&withdrawal(7, 1, 100)), Err(LedgerError::NoSuchAccount));
    assert!(manager.get_account(7).is_none());
}

#[test]
fn test_unknown_transaction() {
    let mut manager = AccountManager::new();
    manager.process(&deposit(1, 1, 10000)).unwrap();
    assert_eq!(manager.process(&dispute(1, 99)), Err(LedgerError::UnknownTransaction));
    assert_eq!(manager.process(&resolve(1, 99)), Err(LedgerError::UnknownTransaction));
    assert_eq!(manager.process(&chargeback(1, 99)), Err(LedgerError::UnknownTransaction));
}

#[test]
fn test_not_disputed() {
    let mut manager = AccountManager::new();
    manager.process(&deposit(1, 1, 10000)).unwrap();
    assert_eq!(manager.process(&resolve(1, 1)), Err(LedgerError::NotDisputed));
    assert_eq!(manager.process(&chargeback(1, 1)), Err(LedgerError::NotDisputed));
    let account = manager.get_account(1).unwrap();
    assert_eq!(account.available, 10000);
    assert!(account.locked.is_none());
}

#[test]
fn test_transaction_closed() {
    let mut manager = AccountManager::new();
    manager.process(&deposit(1, 1, 10000)).unwrap();
    manager.process(&deposit(2, 2, 5000)).unwrap();
    manager.process(&dispute(1, 1)).unwrap();
    manager.process(&chargeback(1, 1)).unwrap();

    // The closed entry stays closed for every lifecycle command.
    assert_eq!(manager.process(&dispute(1, 1)), Err(LedgerError::TransactionClosed));
    assert_eq!(manager.process(&resolve(1, 1)), Err(LedgerError::TransactionClosed));
    assert_eq!(manager.process(&chargeback(1, 1)), Err(LedgerError::TransactionClosed));
}

#[test]
fn test_duplicate_transaction() {
    let mut manager = AccountManager::new();
    manager.process(&deposit(1, 1, 10000)).unwrap();
    assert_eq!(manager.process(&deposit(1, 1, 999)), Err(LedgerError::DuplicateTransaction));
    assert_eq!(manager.process(&deposit(2, 1, 999)), Err(LedgerError::DuplicateTransaction));
    let account = manager.get_account(1).unwrap();
    assert_eq!(account.available, 10000);
}

#[test]
fn test_balance_overflow() {
    let mut manager = AccountManager::new();
    manager.process(&deposit(1, 1, i64::MAX as u64)).unwrap();
    assert_eq!(manager.process(&deposit(1, 2, 1)), Err(LedgerError::BalanceOverflow));
    let account = manager.get_account(1).unwrap();
    assert_eq!(account.available, i64::MAX);

    let mut fresh = AccountManager::new();
    assert_eq!(fresh.process(&deposit(2, 1, u64::MAX)), Err(LedgerError::BalanceOverflow));
    assert!(fresh.get_account(2).is_none());
}
