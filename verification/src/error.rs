//! Closed error types: one variant per way a record or a command can be
//! rejected, so callers branch on the kind instead of parsing messages.
//! Every rejection is recoverable; the stream continues and the rejected
//! command leaves the ledger state unchanged.

use vstd::prelude::*;

verus! {

/// Why the normalizer dropped a raw record.
#[derive(Clone, Copy, Debug, PartialEq, Eq, Structural)]
pub enum ConvertError {
    /// A deposit or withdrawal record without an amount.
    MissingAmount,
    /// A record whose command type the engine does not understand.
    UnknownCommandType,
}

/// Why the ledger engine rejected a command.
#[derive(Clone, Copy, Debug, PartialEq, Eq, Structural)]
pub enum LedgerError {
    /// A withdrawal against a client with no account.
    NoSuchAccount,
    /// A withdrawal larger than the available funds.
    InsufficientFunds,
    /// A dispute, resolve or chargeback referencing a transaction id with no
    /// recorded deposit.
    UnknownTransaction,
    /// A dispute against a deposit whose dispute is already open.
    AlreadyDisputed,
    /// A resolve or chargeback against a deposit with no open dispute.
    NotDisputed,
    /// A dispute, resolve or chargeback against a deposit that a chargeback
    /// closed for good.
    TransactionClosed,
    /// A deposit reusing the transaction id of an earlier deposit.
    DuplicateTransaction,
    /// Any balance-mutating command against a locked account.
    AccountLocked,
    /// A command whose effect would take a balance outside the fixed-point
    /// range.
    BalanceOverflow,
}

} // verus!
