//! The laws the ledger engine obeys, stated over the model and proved for
//! every well-formed state: conservation of funds, reversibility of a
//! dispute, finality of a chargeback, and idempotence of a rejected
//! repeated dispute.

use vstd::prelude::*;

use crate::error::LedgerError;
use crate::model::{
    lemma_disputed_entry_bounded, lemma_step_preserves_wf, spec_outcome, spec_run, spec_step,
    spec_try_step, spec_validate, target_client, total_weight, Ledger,
};
use crate::sums::{lemma_map_sum_insert, lemma_map_sum_update};
use crate::transaction::{Chargeback, Dispute, Resolve, TransactionCommand};
use crate::ClientId;

verus! {

/// The net flow the applied commands of a stream contribute to the
/// ledger-wide total: each applied deposit adds its amount, each applied
/// withdrawal removes its amount; rejected commands and the dispute
/// lifecycle contribute nothing here.
pub open spec fn spec_applied_flow(ledger: Ledger, commands: Seq<TransactionCommand>) -> int
    decreases commands.len(),
{
    if commands.len() == 0 {
        0
    } else {
        let delta = if spec_outcome(ledger, commands[0]) is Ok {
            match commands[0] {
                TransactionCommand::Deposit(deposit) => deposit.amount as int,
                TransactionCommand::Withdrawal(withdrawal) => -(withdrawal.amount as int),
                _ => 0,
            }
        } else {
            0
        };
        delta + spec_applied_flow(spec_step(ledger, commands[0]), commands.drop_first())
    }
}

/// One deposit or withdrawal moves the ledger-wide total by exactly the
/// amount it was applied with, and a rejected one moves it not at all.
pub proof fn lemma_step_sum_totals(ledger: Ledger, command: TransactionCommand)
    requires
        ledger.wf(),
        command is Deposit || command is Withdrawal,
    ensures
        spec_step(ledger, command).sum_totals() == ledger.sum_totals() + (if spec_outcome(
            ledger,
            command,
        ) is Ok {
            match command {
                TransactionCommand::Deposit(deposit) => deposit.amount as int,
                TransactionCommand::Withdrawal(withdrawal) => -(withdrawal.amount as int),
                _ => 0,
            }
        } else {
            0
        }),
{
    if let Ok(valid) = spec_validate(ledger, command) {
        let tc = target_client(valid);
        let ta = ledger.target_account(valid);
        if ledger.accounts.dom().contains(tc) {
            lemma_map_sum_update(ledger.accounts, total_weight(), tc, spec_step(ledger, command).accounts[tc]);
        } else {
            lemma_map_sum_insert(ledger.accounts, total_weight(), tc, spec_step(ledger, command).accounts[tc]);
        }
    }
}

/// Conservation: over any stream of deposits and withdrawals alone, the
/// sum of the applied deposit amounts minus the sum of the applied
/// withdrawal amounts equals the change of the ledger-wide total.
pub proof fn lemma_conservation(ledger: Ledger, commands: Seq<TransactionCommand>)
    requires
        ledger.wf(),
        forall|i: int|
            0 <= i < commands.len() ==> (#[trigger] commands[i]) is Deposit
                || commands[i] is Withdrawal,
    ensures
        spec_run(ledger, commands).sum_totals() == ledger.sum_totals() + spec_applied_flow(
            ledger,
            commands,
        ),
    decreases commands.len(),
{
    if commands.len() > 0 {
        lemma_step_sum_totals(ledger, commands[0]);
        lemma_step_preserves_wf(ledger, commands[0]);
        assert(forall|i: int|
            0 <= i < commands.drop_first().len() ==> (#[trigger] commands.drop_first()[i])
                == commands[i + 1]);
        lemma_conservation(spec_step(ledger, commands[0]), commands.drop_first());
    }
}

/// Dispute reversibility: a resolve directly after an applied dispute on
/// the same transaction id is itself applied, and it restores the whole
/// ledger — the contended account's available and held funds included —
/// exactly to its pre-dispute state.
pub proof fn lemma_dispute_reversibility(ledger: Ledger, dispute: Dispute, resolve: Resolve)
    requires
        ledger.wf(),
        resolve.tx_id == dispute.tx_id,
        spec_outcome(ledger, TransactionCommand::Dispute(dispute)) is Ok,
    ensures
        spec_outcome(
            spec_step(ledger, TransactionCommand::Dispute(dispute)),
            TransactionCommand::Resolve(resolve),
        ) is Ok,
        spec_step(
            spec_step(ledger, TransactionCommand::Dispute(dispute)),
            TransactionCommand::Resolve(resolve),
        ) == ledger,
{
    let after_dispute = spec_step(ledger, TransactionCommand::Dispute(dispute));
    let after_resolve = spec_step(after_dispute, TransactionCommand::Resolve(resolve));
    let entry = ledger.deposits[dispute.tx_id];
    let account = ledger.accounts[entry.client_id];
    assert(after_resolve.accounts[entry.client_id] == account);
    assert(after_resolve.accounts =~= ledger.accounts);
    assert(after_resolve.deposits[dispute.tx_id] == entry);
    assert(after_resolve.deposits =~= ledger.deposits);
}

/// Chargeback finality, the effect half: an applied chargeback takes the
/// contested amount out of the contended account's held funds, leaves its
/// available funds alone, locks the account, and closes the deposit's
/// entry for good.
pub proof fn lemma_chargeback_finality(ledger: Ledger, chargeback: Chargeback)
    requires
        ledger.wf(),
        spec_outcome(ledger, TransactionCommand::Chargeback(chargeback)) is Ok,
    ensures
        ({
            let entry = ledger.deposits[chargeback.tx_id];
            let next = spec_step(ledger, TransactionCommand::Chargeback(chargeback));
            &&& next.accounts[entry.client_id].held == ledger.accounts[entry.client_id].held
                - entry.amount
            &&& next.accounts[entry.client_id].available
                == ledger.accounts[entry.client_id].available
            &&& next.accounts[entry.client_id].is_locked()
            &&& next.deposits[chargeback.tx_id].status is Closed
        }),
{
    lemma_disputed_entry_bounded(ledger, chargeback.tx_id);
}

/// Chargeback finality, the rejection half: a locked account rejects every
/// deposit and withdrawal against it, and every dispute contesting one of
/// its deposits, without any change of state.
pub proof fn lemma_locked_account_rejects(ledger: Ledger, command: TransactionCommand)
    requires
        ledger.wf(),
        (match command {
            TransactionCommand::Deposit(deposit) => ledger.accounts.dom().contains(
                deposit.client_id,
            ) && ledger.accounts[deposit.client_id].is_locked(),
            TransactionCommand::Withdrawal(withdrawal) => ledger.accounts.dom().contains(
                withdrawal.client_id,
            ) && ledger.accounts[withdrawal.client_id].is_locked(),
            TransactionCommand::Dispute(dispute) => ledger.deposits.dom().contains(dispute.tx_id)
                && ledger.accounts[ledger.deposits[dispute.tx_id].client_id].is_locked(),
            _ => false,
        }),
    ensures
        spec_outcome(ledger, command) is Err,
        spec_step(ledger, command) == ledger,
{
}

/// A lock is permanent for the rest of the run: no later command of any
/// kind mutates a locked account or removes its lock.
pub proof fn lemma_lock_permanent(ledger: Ledger, command: TransactionCommand, c: ClientId)
    requires
        ledger.wf(),
        ledger.accounts.dom().contains(c),
        ledger.accounts[c].is_locked(),
    ensures
        spec_step(ledger, command).accounts[c] == ledger.accounts[c],
{
}

/// Idempotent rejection: disputing the same transaction id twice in a row
/// has the second dispute rejected as already disputed, and the state
/// after both disputes is the state after the first.
pub proof fn lemma_dispute_idempotent_rejection(ledger: Ledger, first: Dispute, second: Dispute)
    requires
        ledger.wf(),
        second.tx_id == first.tx_id,
        spec_outcome(ledger, TransactionCommand::Dispute(first)) is Ok,
    ensures
        spec_try_step(
            spec_step(ledger, TransactionCommand::Dispute(first)),
            TransactionCommand::Dispute(second),
        ) == Err::<Ledger, LedgerError>(LedgerError::AlreadyDisputed),
        spec_step(
            spec_step(ledger, TransactionCommand::Dispute(first)),
            TransactionCommand::Dispute(second),
        ) == spec_step(ledger, TransactionCommand::Dispute(first)),
{
}

} // verus!
