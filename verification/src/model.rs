//! The mathematical model of the ledger engine: the ghost state, its
//! well-formedness invariant, and the transition each command makes. The
//! executable engine's contracts say that it computes exactly these
//! transitions.

use vstd::prelude::*;

use crate::account::{Account, Locked};
use crate::account::LockReason;
use crate::error::LedgerError;
use crate::sums::{
    lemma_map_sum_ge_member, lemma_map_sum_insert, lemma_map_sum_nonneg, lemma_map_sum_update,
    lemma_map_sum_zero, map_sum,
};
use crate::transaction::{DepositState, DisputeStatus, TransactionCommand};
use crate::validated_transaction::{
    ValidChargeback, ValidDeposit, ValidDispute, ValidResolve, ValidWithdrawal,
    ValidatedTransactionCommand,
};
use crate::{Amount, ClientId, TxId};

verus! {

/// The ledger's whole state: the account of every client seen so far, and
/// the dispute-tracking entry of every applied deposit.
pub ghost struct Ledger {
    pub accounts: Map<ClientId, Account>,
    pub deposits: Map<TxId, DepositState>,
}

/// The funds that the dispute-tracking entry `entry` currently freezes for
/// client `c`: the entry's amount while its deposit is under dispute and
/// belongs to `c`, nothing otherwise.
pub open spec fn disputed_weight(c: ClientId) -> spec_fn(DepositState) -> int {
    |entry: DepositState|
        if entry.client_id == c && entry.status is Disputed {
            entry.amount as int
        } else {
            0
        }
}

impl Ledger {
    /// The state before any command: no accounts, no entries.
    pub open spec fn empty() -> Ledger {
        Ledger { accounts: Map::empty(), deposits: Map::empty() }
    }

    /// The funds currently under dispute for client `c`, summed over all
    /// dispute-tracking entries.
    pub open spec fn held_for(self, c: ClientId) -> int {
        map_sum(self.deposits, disputed_weight(c))
    }

    /// Well-formedness, established by the empty ledger and preserved by
    /// every transition:
    /// - both maps are finite;
    /// - every account is well formed (non-negative held funds, total in
    ///   range);
    /// - every account's held funds equal the sum of the amounts its
    ///   currently disputed deposits froze;
    /// - every dispute-tracking entry belongs to a client with an account.
    pub open spec fn wf(self) -> bool {
        &&& self.accounts.dom().finite()
        &&& self.deposits.dom().finite()
        &&& forall|c: ClientId|
            self.accounts.dom().contains(c) ==> (#[trigger] self.accounts[c]).wf()
        &&& forall|c: ClientId|
            self.accounts.dom().contains(c) ==> (#[trigger] self.accounts[c]).held
                == self.held_for(c)
        &&& forall|t: TxId|
            self.deposits.dom().contains(t) ==> self.accounts.dom().contains(
                (#[trigger] self.deposits[t]).client_id,
            )
    }

    /// The account a deposit for `c` acts on: the existing one, or a fresh
    /// zero account.
    pub open spec fn account_or_new(self, c: ClientId) -> Account {
        if self.accounts.dom().contains(c) {
            self.accounts[c]
        } else {
            Account::spec_new()
        }
    }

    /// The sum of every account's derived total; what conservation is
    /// stated over.
    pub open spec fn sum_totals(self) -> int {
        map_sum(self.accounts, total_weight())
    }
}

/// An account's contribution to the ledger-wide total: its derived total.
pub open spec fn total_weight() -> spec_fn(Account) -> int {
    |account: Account| account.available + account.held
}

/// Validation: either the validated form of `command`, carrying everything
/// the apply step needs, or the reason it is rejected. Validation decides
/// everything — lookup, lock state, dispute status, funds, fixed-point
/// range — and mutates nothing, so a rejected command provably leaves the
/// ledger unchanged.
///
/// Two policy choices are pinned down here rather than left open: a
/// deposit reusing a recorded transaction id is rejected instead of
/// silently overwriting the entry, and the lock check is part of
/// validation, so a rejected dispute-lifecycle command does not flip the
/// tracking flag either.
pub open spec fn spec_validate(ledger: Ledger, command: TransactionCommand) -> Result<
    ValidatedTransactionCommand,
    LedgerError,
> {
    match command {
        TransactionCommand::Deposit(deposit) => {
            let account = ledger.account_or_new(deposit.client_id);
            if ledger.deposits.dom().contains(deposit.tx_id) {
                Err(LedgerError::DuplicateTransaction)
            } else if account.is_locked() {
                Err(LedgerError::AccountLocked)
            } else if account.spec_total() + deposit.amount > i64::MAX {
                Err(LedgerError::BalanceOverflow)
            } else {
                Ok(
                    ValidatedTransactionCommand::Deposit(
                        ValidDeposit {
                            tx_id: deposit.tx_id,
                            client_id: deposit.client_id,
                            amount: deposit.amount,
                        },
                    ),
                )
            }
        },
        TransactionCommand::Withdrawal(withdrawal) => {
            if !ledger.accounts.dom().contains(withdrawal.client_id) {
                Err(LedgerError::NoSuchAccount)
            } else {
                let account = ledger.accounts[withdrawal.client_id];
                if account.is_locked() {
                    Err(LedgerError::AccountLocked)
                } else if account.available < withdrawal.amount {
                    Err(LedgerError::InsufficientFunds)
                } else {
                    Ok(
                        ValidatedTransactionCommand::Withdrawal(
                            ValidWithdrawal {
                                tx_id: withdrawal.tx_id,
                                client_id: withdrawal.client_id,
                                amount: withdrawal.amount,
                            },
                        ),
                    )
                }
            }
        },
        TransactionCommand::Dispute(dispute) => {
            if !ledger.deposits.dom().contains(dispute.tx_id) {
                Err(LedgerError::UnknownTransaction)
            } else {
                let entry = ledger.deposits[dispute.tx_id];
                let account = ledger.accounts[entry.client_id];
                match entry.status {
                    DisputeStatus::Closed => Err(LedgerError::TransactionClosed),
                    DisputeStatus::Disputed => Err(LedgerError::AlreadyDisputed),
                    DisputeStatus::Undisputed => {
                        if account.is_locked() {
                            Err(LedgerError::AccountLocked)
                        } else if account.held + entry.amount > i64::MAX || account.available
                            - entry.amount < i64::MIN {
                            Err(LedgerError::BalanceOverflow)
                        } else {
                            Ok(
                                ValidatedTransactionCommand::Dispute(
                                    ValidDispute {
                                        tx_id: dispute.tx_id,
                                        raising_client_id: dispute.client_id,
                                        contended_client_id: entry.client_id,
                                        amount: entry.amount,
                                    },
                                ),
                            )
                        }
                    },
                }
            }
        },
        TransactionCommand::Resolve(resolve) => {
            if !ledger.deposits.dom().contains(resolve.tx_id) {
                Err(LedgerError::UnknownTransaction)
            } else {
                let entry = ledger.deposits[resolve.tx_id];
                let account = ledger.accounts[entry.client_id];
                match entry.status {
                    DisputeStatus::Closed => Err(LedgerError::TransactionClosed),
                    DisputeStatus::Undisputed => Err(LedgerError::NotDisputed),
                    DisputeStatus::Disputed => {
                        if account.is_locked() {
                            Err(LedgerError::AccountLocked)
                        } else {
                            Ok(
                                ValidatedTransactionCommand::Resolve(
                                    ValidResolve {
                                        tx_id: resolve.tx_id,
                                        raising_client_id: resolve.client_id,
                                        contended_client_id: entry.client_id,
                                        amount: entry.amount,
                                    },
                                ),
                            )
                        }
                    },
                }
            }
        },
        TransactionCommand::Chargeback(chargeback) => {
            if !ledger.deposits.dom().contains(chargeback.tx_id) {
                Err(LedgerError::UnknownTransaction)
            } else {
                let entry = ledger.deposits[chargeback.tx_id];
                let account = ledger.accounts[entry.client_id];
                match entry.status {
                    DisputeStatus::Closed => Err(LedgerError::TransactionClosed),
                    DisputeStatus::Undisputed => Err(LedgerError::NotDisputed),
                    DisputeStatus::Disputed => {
                        if account.is_locked() {
                            Err(LedgerError::AccountLocked)
                        } else {
                            Ok(
                                ValidatedTransactionCommand::Chargeback(
                                    ValidChargeback {
                                        tx_id: chargeback.tx_id,
                                        raising_client_id: chargeback.client_id,
                                        contended_client_id: entry.client_id,
                                        amount: entry.amount,
                                    },
                                ),
                            )
                        }
                    },
                }
            }
        },
    }
}

/// The client whose account a validated command acts on: for a dispute,
/// resolve or chargeback the contended (depositing) client, never the
/// raiser.
pub open spec fn target_client(valid: ValidatedTransactionCommand) -> ClientId {
    match valid {
        ValidatedTransactionCommand::Deposit(deposit) => deposit.client_id,
        ValidatedTransactionCommand::Withdrawal(withdrawal) => withdrawal.client_id,
        ValidatedTransactionCommand::Dispute(dispute) => dispute.contended_client_id,
        ValidatedTransactionCommand::Resolve(resolve) => resolve.contended_client_id,
        ValidatedTransactionCommand::Chargeback(chargeback) => chargeback.contended_client_id,
    }
}

impl Ledger {
    /// The account a validated command acts on; a deposit may create it.
    pub open spec fn target_account(self, valid: ValidatedTransactionCommand) -> Account {
        match valid {
            ValidatedTransactionCommand::Deposit(deposit) => self.account_or_new(deposit.client_id),
            _ => self.accounts[target_client(valid)],
        }
    }
}

/// The balance effect of a validated command on the account it acts on.
pub open spec fn spec_execute(account: Account, valid: ValidatedTransactionCommand) -> Account {
    match valid {
        ValidatedTransactionCommand::Deposit(deposit) => Account {
            available: (account.available + deposit.amount) as i64,
            ..account
        },
        ValidatedTransactionCommand::Withdrawal(withdrawal) => Account {
            available: (account.available - withdrawal.amount) as i64,
            ..account
        },
        ValidatedTransactionCommand::Dispute(dispute) => Account {
            available: (account.available - dispute.amount) as i64,
            held: (account.held + dispute.amount) as i64,
            ..account
        },
        ValidatedTransactionCommand::Resolve(resolve) => Account {
            available: (account.available + resolve.amount) as i64,
            held: (account.held - resolve.amount) as i64,
            ..account
        },
        ValidatedTransactionCommand::Chargeback(chargeback) => Account {
            available: account.available,
            held: (account.held - chargeback.amount) as i64,
            locked: Some(Locked { reason_for_lock: LockReason::Chargeback }),
        },
    }
}

/// The dispute-tracking entries after a validated command: a deposit
/// registers a fresh undisputed entry; a dispute, resolve or chargeback
/// moves the referenced entry along its lifecycle; a withdrawal touches
/// none.
pub open spec fn spec_entries_after(ledger: Ledger, valid: ValidatedTransactionCommand) -> Map<
    TxId,
    DepositState,
> {
    match valid {
        ValidatedTransactionCommand::Deposit(deposit) => ledger.deposits.insert(
            deposit.tx_id,
            DepositState {
                client_id: deposit.client_id,
                amount: deposit.amount,
                status: DisputeStatus::Undisputed,
            },
        ),
        ValidatedTransactionCommand::Withdrawal(_) => ledger.deposits,
        ValidatedTransactionCommand::Dispute(dispute) => ledger.deposits.insert(
            dispute.tx_id,
            DepositState { status: DisputeStatus::Disputed, ..ledger.deposits[dispute.tx_id] },
        ),
        ValidatedTransactionCommand::Resolve(resolve) => ledger.deposits.insert(
            resolve.tx_id,
            DepositState { status: DisputeStatus::Undisputed, ..ledger.deposits[resolve.tx_id] },
        ),
        ValidatedTransactionCommand::Chargeback(chargeback) => ledger.deposits.insert(
            chargeback.tx_id,
            DepositState { status: DisputeStatus::Closed, ..ledger.deposits[chargeback.tx_id] },
        ),
    }
}

/// The effect of a validated command on the ledger. Total as a function;
/// meaningful under the preconditions [`spec_validate`] established.
pub open spec fn spec_apply(ledger: Ledger, valid: ValidatedTransactionCommand) -> Ledger {
    Ledger {
        accounts: ledger.accounts.insert(
            target_client(valid),
            spec_execute(ledger.target_account(valid), valid),
        ),
        deposits: spec_entries_after(ledger, valid),
    }
}

/// One step of the engine: validate, then apply; a rejected command changes
/// nothing.
pub open spec fn spec_try_step(ledger: Ledger, command: TransactionCommand) -> Result<
    Ledger,
    LedgerError,
> {
    match spec_validate(ledger, command) {
        Ok(valid) => Ok(spec_apply(ledger, valid)),
        Err(e) => Err(e),
    }
}

/// The state after one command: the applied effect, or the unchanged state
/// when the command is rejected.
pub open spec fn spec_step(ledger: Ledger, command: TransactionCommand) -> Ledger {
    match spec_try_step(ledger, command) {
        Ok(next) => next,
        Err(_) => ledger,
    }
}

/// What one command reports: `Ok` exactly when it was applied.
pub open spec fn spec_outcome(ledger: Ledger, command: TransactionCommand) -> Result<
    (),
    LedgerError,
> {
    match spec_try_step(ledger, command) {
        Ok(_) => Ok(()),
        Err(e) => Err(e),
    }
}

/// The state after a whole stream of commands, processed strictly in
/// order; rejected commands are skipped, never fatal.
pub open spec fn spec_run(ledger: Ledger, commands: Seq<TransactionCommand>) -> Ledger
    decreases commands.len(),
{
    if commands.len() == 0 {
        ledger
    } else {
        spec_run(spec_step(ledger, commands[0]), commands.drop_first())
    }
}

/// The amount an open dispute froze never exceeds the held funds of the
/// client it belongs to: the held balance is the sum over all open
/// disputes, and every addend of that sum is non-negative.
pub proof fn lemma_disputed_entry_bounded(ledger: Ledger, t: TxId)
    requires
        ledger.wf(),
        ledger.deposits.dom().contains(t),
        ledger.deposits[t].status is Disputed,
    ensures
        ledger.deposits[t].amount <= ledger.accounts[ledger.deposits[t].client_id].held,
{
    let c = ledger.deposits[t].client_id;
    assert(forall|entry: DepositState| 0 <= #[trigger] (disputed_weight(c))(entry));
    lemma_map_sum_ge_member(ledger.deposits, disputed_weight(c), t);
}

/// Every transition preserves the ledger's well-formedness.
pub proof fn lemma_step_preserves_wf(ledger: Ledger, command: TransactionCommand)
    requires
        ledger.wf(),
    ensures
        spec_step(ledger, command).wf(),
{
    if let Ok(valid) = spec_validate(ledger, command) {
        let next = spec_apply(ledger, valid);
        let tc = target_client(valid);
        let ta = ledger.target_account(valid);
        let a2 = spec_execute(ta, valid);

        match valid {
            ValidatedTransactionCommand::Deposit(deposit) => {
                let t = deposit.tx_id;
                let e_new = DepositState {
                    client_id: tc,
                    amount: deposit.amount,
                    status: DisputeStatus::Undisputed,
                };
                assert(a2.wf());
                if !ledger.accounts.dom().contains(tc) {
                    assert(forall|t2: TxId|
                        ledger.deposits.dom().contains(t2) ==> (#[trigger] ledger.deposits[t2]).client_id
                            != tc);
                    lemma_map_sum_zero(ledger.deposits, disputed_weight(tc));
                }
                assert forall|c2: ClientId| next.accounts.dom().contains(c2) implies (
                #[trigger] next.accounts[c2]).held == next.held_for(c2) by {
                    lemma_map_sum_insert(ledger.deposits, disputed_weight(c2), t, e_new);
                    assert((disputed_weight(c2))(e_new) == 0);
                }
            },
            ValidatedTransactionCommand::Withdrawal(_) => {
                assert(a2.wf());
            },
            ValidatedTransactionCommand::Dispute(dispute) => {
                let t = dispute.tx_id;
                let entry = ledger.deposits[t];
                let e_new = DepositState { status: DisputeStatus::Disputed, ..entry };
                assert(a2.wf());
                assert forall|c2: ClientId| next.accounts.dom().contains(c2) implies (
                #[trigger] next.accounts[c2]).held == next.held_for(c2) by {
                    lemma_map_sum_update(ledger.deposits, disputed_weight(c2), t, e_new);
                    assert((disputed_weight(c2))(entry) == 0);
                    if c2 == tc {
                        assert((disputed_weight(c2))(e_new) == entry.amount);
                    } else {
                        assert((disputed_weight(c2))(e_new) == 0);
                    }
                }
            },
            ValidatedTransactionCommand::Resolve(resolve) => {
                let t = resolve.tx_id;
                let entry = ledger.deposits[t];
                let e_new = DepositState { status: DisputeStatus::Undisputed, ..entry };
                lemma_disputed_entry_bounded(ledger, t);
                assert(a2.wf());
                assert forall|c2: ClientId| next.accounts.dom().contains(c2) implies (
                #[trigger] next.accounts[c2]).held == next.held_for(c2) by {
                    lemma_map_sum_update(ledger.deposits, disputed_weight(c2), t, e_new);
                    assert((disputed_weight(c2))(e_new) == 0);
                    if c2 == tc {
                        assert((disputed_weight(c2))(entry) == entry.amount);
                    } else {
                        assert((disputed_weight(c2))(entry) == 0);
                    }
                }
            },
            ValidatedTransactionCommand::Chargeback(chargeback) => {
                let t = chargeback.tx_id;
                let entry = ledger.deposits[t];
                let e_new = DepositState { status: DisputeStatus::Closed, ..entry };
                lemma_disputed_entry_bounded(ledger, t);
                assert(a2.wf());
                assert forall|c2: ClientId| next.accounts.dom().contains(c2) implies (
                #[trigger] next.accounts[c2]).held == next.held_for(c2) by {
                    lemma_map_sum_update(ledger.deposits, disputed_weight(c2), t, e_new);
                    assert((disputed_weight(c2))(e_new) == 0);
                    if c2 == tc {
                        assert((disputed_weight(c2))(entry) == entry.amount);
                    } else {
                        assert((disputed_weight(c2))(entry) == 0);
                    }
                }
            },
        }
    }
}

/// Processing a stream preserves well-formedness.
pub proof fn lemma_run_preserves_wf(ledger: Ledger, commands: Seq<TransactionCommand>)
    requires
        ledger.wf(),
    ensures
        spec_run(ledger, commands).wf(),
    decreases commands.len(),
{
    if commands.len() > 0 {
        lemma_step_preserves_wf(ledger, commands[0]);
        lemma_run_preserves_wf(spec_step(ledger, commands[0]), commands.drop_first());
    }
}

/// Running a stream extended by one command is running the stream, then
/// stepping by that command.
pub proof fn lemma_spec_run_push(
    ledger: Ledger,
    commands: Seq<TransactionCommand>,
    command: TransactionCommand,
)
    ensures
        spec_run(ledger, commands.push(command)) == spec_step(spec_run(ledger, commands), command),
    decreases commands.len(),
{
    let extended = commands.push(command);
    assert(spec_run(ledger, extended) == spec_run(spec_step(ledger, extended[0]), extended.drop_first()));
    if commands.len() == 0 {
        assert(extended[0] == command);
        assert(extended.drop_first() =~= Seq::<TransactionCommand>::empty());
        assert(spec_run(spec_step(ledger, command), extended.drop_first()) == spec_step(
            ledger,
            command,
        ));
        assert(spec_run(ledger, commands) == ledger);
    } else {
        assert(extended[0] == commands[0]);
        assert(extended.drop_first() =~= commands.drop_first().push(command));
        lemma_spec_run_push(spec_step(ledger, commands[0]), commands.drop_first(), command);
        assert(spec_run(ledger, commands) == spec_run(
            spec_step(ledger, commands[0]),
            commands.drop_first(),
        ));
    }
}

} // verus!
