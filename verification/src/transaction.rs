//! The commands the ledger engine consumes, the raw record they are
//! normalized from, and the per-deposit dispute-tracking entry.

use vstd::prelude::*;

use crate::{Amount, ClientId, TxId};

verus! {

/// A raw transaction record as the source emits it: a command type, the
/// record's transaction and client identifiers, and an optional amount.
/// Whether the amount is required depends on the command type; the
/// normalizer checks that.
#[derive(Clone, Copy, Debug, PartialEq)]
pub struct AnyTransaction {
    pub command_type: CommandType,
    pub tx_id: TxId,
    pub client_id: ClientId,
    pub amount: Option<Amount>,
}

/// The command type named by a raw record. `Unknown` stands for any name
/// outside the five the engine understands.
#[derive(Clone, Copy, Debug, PartialEq, Eq, Structural)]
pub enum CommandType {
    Deposit,
    Withdrawal,
    Dispute,
    Resolve,
    Chargeback,
    Unknown,
}

/// A typed command, the unit the ledger engine consumes: one of five
/// variants, each carrying the identifiers it acts on.
#[derive(Clone, Copy, Debug, PartialEq, Eq, Structural)]
pub enum TransactionCommand {
    Deposit(Deposit),
    Withdrawal(Withdrawal),
    Dispute(Dispute),
    Resolve(Resolve),
    Chargeback(Chargeback),
}

/// Credit `amount` to the account of `client_id`, creating it if absent.
#[derive(Clone, Copy, Debug, PartialEq, Eq, Structural)]
pub struct Deposit {
    pub client_id: ClientId,
    pub tx_id: TxId,
    pub amount: Amount,
}

/// Debit `amount` from the account of `client_id`, all or nothing.
#[derive(Clone, Copy, Debug, PartialEq, Eq, Structural)]
pub struct Withdrawal {
    pub client_id: ClientId,
    pub tx_id: TxId,
    pub amount: Amount,
}

/// Contest the deposit recorded under `tx_id`: freeze its amount. The funds
/// frozen are the depositing client's, which may differ from `client_id`,
/// the client raising the dispute.
#[derive(Clone, Copy, Debug, PartialEq, Eq, Structural)]
pub struct Dispute {
    pub client_id: ClientId,
    pub tx_id: TxId,
}

/// Release the dispute on the deposit recorded under `tx_id`: the frozen
/// amount becomes available again.
#[derive(Clone, Copy, Debug, PartialEq, Eq, Structural)]
pub struct Resolve {
    pub client_id: ClientId,
    pub tx_id: TxId,
}

/// Decide the dispute on the deposit recorded under `tx_id` against the
/// depositor: the frozen amount is removed and the account locked.
#[derive(Clone, Copy, Debug, PartialEq, Eq, Structural)]
pub struct Chargeback {
    pub client_id: ClientId,
    pub tx_id: TxId,
}

/// Dispute lifecycle of one applied deposit. `Closed` is terminal and
/// distinct from `Undisputed`, so a charged-back deposit cannot be reopened.
#[derive(Clone, Copy, Debug, PartialEq, Eq, Structural)]
pub enum DisputeStatus {
    /// No dispute is open; one may be raised.
    Undisputed,
    /// A dispute is open; it may be resolved or charged back.
    Disputed,
    /// A chargeback closed the deposit for good.
    Closed,
}

/// Dispute-tracking entry kept for every applied deposit, keyed by the
/// deposit's transaction id. Entries are never deleted.
#[derive(Clone, Copy, Debug, PartialEq, Eq, Structural)]
pub struct DepositState {
    /// The depositing client, whose funds a dispute freezes.
    pub client_id: ClientId,
    /// The deposited amount, the unit a dispute contests.
    pub amount: Amount,
    /// Where the entry stands in the dispute lifecycle.
    pub status: DisputeStatus,
}

} // verus!
