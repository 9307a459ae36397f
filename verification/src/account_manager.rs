//! The ledger engine: owns the account map and the dispute-tracking map,
//! consumes commands strictly in arrival order, and computes exactly the
//! transitions of the model in [`crate::model`]. Per-command failures are
//! reported to the caller and never abort the stream.

use vstd::prelude::*;

use std::collections::HashMap;

use crate::account::{Account, LockReason};
use crate::error::LedgerError;
use crate::model::{
    lemma_disputed_entry_bounded, lemma_spec_run_push, lemma_step_preserves_wf, spec_apply,
    spec_execute, spec_outcome, spec_run, spec_step, spec_validate, target_client, Ledger,
};
use crate::transaction::{DepositState, DisputeStatus, TransactionCommand};
use crate::validated_transaction::{
    ValidChargeback, ValidDeposit, ValidDispute, ValidResolve, ValidWithdrawal,
    ValidatedTransactionCommand,
};
use crate::{ClientId, TxId};

verus! {

broadcast use vstd::std_specs::hash::group_hash_axioms;

/// The single owner of the ledger state for the lifetime of a stream:
/// the account of every client seen, and the dispute-tracking entry of
/// every applied deposit.
pub struct AccountManager {
    accounts: HashMap<ClientId, Account>,
    tx_id_to_deposit: HashMap<TxId, DepositState>,
}

impl View for AccountManager {
    type V = Ledger;

    closed spec fn view(&self) -> Ledger {
        Ledger { accounts: self.accounts@, deposits: self.tx_id_to_deposit@ }
    }
}

impl AccountManager {
    /// An engine with no accounts and no entries.
    pub fn new() -> (manager: AccountManager)
        ensures
            manager@ == Ledger::empty(),
            manager@.wf(),
    {
        let manager = AccountManager {
            accounts: HashMap::new(),
            tx_id_to_deposit: HashMap::new(),
        };
        proof {
            assert(manager@.accounts =~= Ledger::empty().accounts);
            assert(manager@.deposits =~= Ledger::empty().deposits);
        }
        manager
    }

    /// Validate one command against the current state, without mutating
    /// anything: either the validated form carrying everything the apply
    /// step needs, or the exact reason the command is rejected.
    pub fn validate_transaction(&self, command: &TransactionCommand) -> (result: Result<
        ValidatedTransactionCommand,
        LedgerError,
    >)
        requires
            self@.wf(),
        ensures
            result == spec_validate(self@, *command),
    {
        match command {
            TransactionCommand::Deposit(deposit) => {
                let account = match self.accounts.get(&deposit.client_id) {
                    Some(account) => *account,
                    None => Account::new(),
                };
                if self.tx_id_to_deposit.contains_key(&deposit.tx_id) {
                    Err(LedgerError::DuplicateTransaction)
                } else if account.locked.is_some() {
                    Err(LedgerError::AccountLocked)
                } else if account.available as i128 + account.held as i128 + deposit.amount as i128
                    > i64::MAX as i128 {
                    Err(LedgerError::BalanceOverflow)
                } else {
                    Ok(
                        ValidatedTransactionCommand::Deposit(
                            ValidDeposit {
                                tx_id: deposit.tx_id,
                                client_id: deposit.client_id,
                                amount: deposit.amount,
                            },
                        ),
                    )
                }
            },
            TransactionCommand::Withdrawal(withdrawal) => {
                match self.accounts.get(&withdrawal.client_id) {
                    None => Err(LedgerError::NoSuchAccount),
                    Some(account) => {
                        if account.locked.is_some() {
                            Err(LedgerError::AccountLocked)
                        } else if (account.available as i128) < withdrawal.amount as i128 {
                            Err(LedgerError::InsufficientFunds)
                        } else {
                            Ok(
                                ValidatedTransactionCommand::Withdrawal(
                                    ValidWithdrawal {
                                        tx_id: withdrawal.tx_id,
                                        client_id: withdrawal.client_id,
                                        amount: withdrawal.amount,
                                    },
                                ),
                            )
                        }
                    },
                }
            },
            TransactionCommand::Dispute(dispute) => {
                match self.tx_id_to_deposit.get(&dispute.tx_id) {
                    None => Err(LedgerError::UnknownTransaction),
                    Some(entry) => {
                        let entry = *entry;
                        match entry.status {
                            DisputeStatus::Closed => Err(LedgerError::TransactionClosed),
                            DisputeStatus::Disputed => Err(LedgerError::AlreadyDisputed),
                            DisputeStatus::Undisputed => {
                                // For a well-formed ledger the depositing
                                // client always has an account; the fresh
                                // account is never reached.
                                let account = match self.accounts.get(&entry.client_id) {
                                    Some(account) => *account,
                                    None => Account::new(),
                                };
                                if account.locked.is_some() {
                                    Err(LedgerError::AccountLocked)
                                } else if account.held as i128 + entry.amount as i128
                                    > i64::MAX as i128 || (account.available as i128)
                                    - (entry.amount as i128) < i64::MIN as i128 {
                                    Err(LedgerError::BalanceOverflow)
                                } else {
                                    Ok(
                                        ValidatedTransactionCommand::Dispute(
                                            ValidDispute {
                                                tx_id: dispute.tx_id,
                                                raising_client_id: dispute.client_id,
                                                contended_client_id: entry.client_id,
                                                amount: entry.amount,
                                            },
                                        ),
                                    )
                                }
                            },
                        }
                    },
                }
            },
            TransactionCommand::Resolve(resolve) => {
                match self.tx_id_to_deposit.get(&resolve.tx_id) {
                    None => Err(LedgerError::UnknownTransaction),
                    Some(entry) => {
                        let entry = *entry;
                        match entry.status {
                            DisputeStatus::Closed => Err(LedgerError::TransactionClosed),
                            DisputeStatus::Undisputed => Err(LedgerError::NotDisputed),
                            DisputeStatus::Disputed => {
                                let account = match self.accounts.get(&entry.client_id) {
                                    Some(account) => *account,
                                    None => Account::new(),
                                };
                                if account.locked.is_some() {
                                    Err(LedgerError::AccountLocked)
                                } else {
                                    Ok(
                                        ValidatedTransactionCommand::Resolve(
                                            ValidResolve {
                                                tx_id: resolve.tx_id,
                                                raising_client_id: resolve.client_id,
                                                contended_client_id: entry.client_id,
                                                amount: entry.amount,
                                            },
                                        ),
                                    )
                                }
                            },
                        }
                    },
                }
            },
            TransactionCommand::Chargeback(chargeback) => {
                match self.tx_id_to_deposit.get(&chargeback.tx_id) {
                    None => Err(LedgerError::UnknownTransaction),
                    Some(entry) => {
                        let entry = *entry;
                        match entry.status {
                            DisputeStatus::Closed => Err(LedgerError::TransactionClosed),
                            DisputeStatus::Undisputed => Err(LedgerError::NotDisputed),
                            DisputeStatus::Disputed => {
                                let account = match self.accounts.get(&entry.client_id) {
                                    Some(account) => *account,
                                    None => Account::new(),
                                };
                                if account.locked.is_some() {
                                    Err(LedgerError::AccountLocked)
                                } else {
                                    Ok(
                                        ValidatedTransactionCommand::Chargeback(
                                            ValidChargeback {
                                                tx_id: chargeback.tx_id,
                                                raising_client_id: chargeback.client_id,
                                                contended_client_id: entry.client_id,
                                                amount: entry.amount,
                                            },
                                        ),
                                    )
                                }
                            },
                        }
                    },
                }
            },
        }
    }

    /// Resolve the account a validated command acts on: get-or-create for a
    /// deposit, lookup for everything else. For a command that validation
    /// produced, the lookup never fails.
    pub fn find_actioning_account(&self, valid: &ValidatedTransactionCommand) -> (result: Option<
        Account,
    >)
        ensures
            ({
                let c = target_client(*valid);
                match *valid {
                    ValidatedTransactionCommand::Deposit(_) => result == Some(
                        self@.account_or_new(c),
                    ),
                    _ => result == if self@.accounts.dom().contains(c) {
                        Some(self@.accounts[c])
                    } else {
                        None::<Account>
                    },
                }
            }),
    {
        match valid {
            ValidatedTransactionCommand::Deposit(deposit) => {
                match self.accounts.get(&deposit.client_id) {
                    Some(account) => Some(*account),
                    None => Some(Account::new()),
                }
            },
            ValidatedTransactionCommand::Withdrawal(withdrawal) => {
                match self.accounts.get(&withdrawal.client_id) {
                    Some(account) => Some(*account),
                    None => None,
                }
            },
            ValidatedTransactionCommand::Dispute(dispute) => {
                match self.accounts.get(&dispute.contended_client_id) {
                    Some(account) => Some(*account),
                    None => None,
                }
            },
            ValidatedTransactionCommand::Resolve(resolve) => {
                match self.accounts.get(&resolve.contended_client_id) {
                    Some(account) => Some(*account),
                    None => None,
                }
            },
            ValidatedTransactionCommand::Chargeback(chargeback) => {
                match self.accounts.get(&chargeback.contended_client_id) {
                    Some(account) => Some(*account),
                    None => None,
                }
            },
        }
    }

    /// Apply a validated command's balance effect to the account it acts
    /// on. Validation has established the preconditions.
    pub fn execute_command(account: &mut Account, valid: &ValidatedTransactionCommand)
        requires
            old(account).wf(),
            (match *valid {
                ValidatedTransactionCommand::Deposit(deposit) => old(account).spec_total()
                    + deposit.amount <= i64::MAX,
                ValidatedTransactionCommand::Withdrawal(withdrawal) => withdrawal.amount <= old(
                    account,
                ).available,
                ValidatedTransactionCommand::Dispute(dispute) => old(account).held + dispute.amount
                    <= i64::MAX && i64::MIN <= old(account).available - dispute.amount,
                ValidatedTransactionCommand::Resolve(resolve) => resolve.amount <= old(
                    account,
                ).held,
                ValidatedTransactionCommand::Chargeback(chargeback) => chargeback.amount <= old(
                    account,
                ).held,
            }),
        ensures
            *final(account) == spec_execute(*old(account), *valid),
            final(account).wf(),
    {
        match valid {
            ValidatedTransactionCommand::Deposit(deposit) => account.deposit(deposit.amount),
            ValidatedTransactionCommand::Withdrawal(withdrawal) => account.withdraw(
                withdrawal.amount,
            ),
            ValidatedTransactionCommand::Dispute(dispute) => account.freeze_funds(dispute.amount),
            ValidatedTransactionCommand::Resolve(resolve) => account.thaw_funds(resolve.amount),
            ValidatedTransactionCommand::Chargeback(chargeback) => {
                account.chargeback(chargeback.amount);
                account.lock_account(LockReason::Chargeback);
            },
        }
    }

    /// Process one command: validate it, resolve the account it acts on,
    /// apply its effect. Returns `Ok` exactly when the command was applied;
    /// a rejected command reports its reason and leaves the state
    /// unchanged.
    pub fn process(&mut self, command: &TransactionCommand) -> (result: Result<(), LedgerError>)
        requires
            old(self)@.wf(),
        ensures
            final(self)@ == spec_step(old(self)@, *command),
            result == spec_outcome(old(self)@, *command),
            final(self)@.wf(),
    {
        let ghost l0 = self@;
        proof {
            lemma_step_preserves_wf(l0, *command);
        }
        let valid = match self.validate_transaction(command) {
            Ok(valid) => valid,
            Err(e) => {
                return Err(e);
            },
        };
        proof {
            match valid {
                ValidatedTransactionCommand::Dispute(dispute) => {
                    assert(l0.accounts.dom().contains(dispute.contended_client_id));
                },
                ValidatedTransactionCommand::Resolve(resolve) => {
                    assert(l0.accounts.dom().contains(resolve.contended_client_id));
                    lemma_disputed_entry_bounded(l0, resolve.tx_id);
                },
                ValidatedTransactionCommand::Chargeback(chargeback) => {
                    assert(l0.accounts.dom().contains(chargeback.contended_client_id));
                    lemma_disputed_entry_bounded(l0, chargeback.tx_id);
                },
                _ => {},
            }
        }
        let account_opt = self.find_actioning_account(&valid);
        let mut account = account_opt.unwrap();
        AccountManager::execute_command(&mut account, &valid);
        match valid {
            ValidatedTransactionCommand::Deposit(deposit) => {
                self.accounts.insert(deposit.client_id, account);
                self.tx_id_to_deposit.insert(
                    deposit.tx_id,
                    DepositState {
                        client_id: deposit.client_id,
                        amount: deposit.amount,
                        status: DisputeStatus::Undisputed,
                    },
                );
            },
            ValidatedTransactionCommand::Withdrawal(withdrawal) => {
                self.accounts.insert(withdrawal.client_id, account);
            },
            ValidatedTransactionCommand::Dispute(dispute) => {
                self.accounts.insert(dispute.contended_client_id, account);
                let entry = *self.tx_id_to_deposit.get(&dispute.tx_id).unwrap();
                self.tx_id_to_deposit.insert(
                    dispute.tx_id,
                    DepositState { status: DisputeStatus::Disputed, ..entry },
                );
            },
            ValidatedTransactionCommand::Resolve(resolve) => {
                self.accounts.insert(resolve.contended_client_id, account);
                let entry = *self.tx_id_to_deposit.get(&resolve.tx_id).unwrap();
                self.tx_id_to_deposit.insert(
                    resolve.tx_id,
                    DepositState { status: DisputeStatus::Undisputed, ..entry },
                );
            },
            ValidatedTransactionCommand::Chargeback(chargeback) => {
                self.accounts.insert(chargeback.contended_client_id, account);
                let entry = *self.tx_id_to_deposit.get(&chargeback.tx_id).unwrap();
                self.tx_id_to_deposit.insert(
                    chargeback.tx_id,
                    DepositState { status: DisputeStatus::Closed, ..entry },
                );
            },
        }
        proof {
            assert(self@ == spec_apply(l0, valid));
        }
        Ok(())
    }

    /// The stream driver: consume a whole batch of commands strictly in
    /// order. Rejected commands are skipped; they never abort the batch.
    pub fn run(&mut self, commands: &Vec<TransactionCommand>)
        requires
            old(self)@.wf(),
        ensures
            final(self)@ == spec_run(old(self)@, commands@),
            final(self)@.wf(),
    {
        let ghost l0 = self@;
        let mut i: usize = 0;
        while i < commands.len()
            invariant
                i <= commands.len(),
                self@ == spec_run(l0, commands@.take(i as int)),
                self@.wf(),
            decreases commands.len() - i,
        {
            let command = commands[i];
            let _ = self.process(&command);
            proof {
                lemma_spec_run_push(l0, commands@.take(i as int), commands@[i as int]);
                assert(commands@.take(i as int).push(commands@[i as int]) =~= commands@.take(
                    i + 1 as int,
                ));
            }
            i = i + 1;
        }
        proof {
            assert(commands@.take(commands@.len() as int) =~= commands@);
        }
    }

    /// The final account of one client, if any command touched it.
    pub fn get_account(&self, client_id: ClientId) -> (result: Option<Account>)
        ensures
            result == if self@.accounts.dom().contains(client_id) {
                Some(self@.accounts[client_id])
            } else {
                None::<Account>
            },
    {
        match self.accounts.get(&client_id) {
            Some(account) => Some(*account),
            None => None,
        }
    }

    /// Surrender the final snapshot: the account of every client touched,
    /// keyed by client identifier.
    pub fn into_accounts(self) -> (accounts: HashMap<ClientId, Account>)
        ensures
            accounts@ == self@.accounts,
    {
        self.accounts
    }
}

} // verus!
