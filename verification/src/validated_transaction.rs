//! The intermediate representation validation produces: everything the apply
//! step needs, resolved once at validation time. A validated dispute,
//! resolve or chargeback already carries the contended deposit's owning
//! client and amount, so the apply step never re-derives them.

use vstd::prelude::*;

use crate::{Amount, ClientId, TxId};

verus! {

/// A command that passed validation against the current ledger state.
#[derive(Clone, Copy, Debug, PartialEq, Eq, Structural)]
pub enum ValidatedTransactionCommand {
    Deposit(ValidDeposit),
    Withdrawal(ValidWithdrawal),
    Dispute(ValidDispute),
    Resolve(ValidResolve),
    Chargeback(ValidChargeback),
}

/// A deposit ready to apply: the target account exists or will be created,
/// is unlocked, and the amount keeps its total in range.
#[derive(Clone, Copy, Debug, PartialEq, Eq, Structural)]
pub struct ValidDeposit {
    pub tx_id: TxId,
    pub client_id: ClientId,
    pub amount: Amount,
}

/// A withdrawal ready to apply: the account exists, is unlocked, and covers
/// the amount.
#[derive(Clone, Copy, Debug, PartialEq, Eq, Structural)]
pub struct ValidWithdrawal {
    pub tx_id: TxId,
    pub client_id: ClientId,
    pub amount: Amount,
}

/// A dispute ready to apply. The account whose funds move is the contended
/// (depositing) client's, never the raiser's.
#[derive(Clone, Copy, Debug, PartialEq, Eq, Structural)]
pub struct ValidDispute {
    pub tx_id: TxId,
    pub raising_client_id: ClientId,
    pub contended_client_id: ClientId,
    pub amount: Amount,
}

/// A resolve ready to apply, carrying the contended client and amount.
#[derive(Clone, Copy, Debug, PartialEq, Eq, Structural)]
pub struct ValidResolve {
    pub tx_id: TxId,
    pub raising_client_id: ClientId,
    pub contended_client_id: ClientId,
    pub amount: Amount,
}

/// A chargeback ready to apply, carrying the contended client and amount.
#[derive(Clone, Copy, Debug, PartialEq, Eq, Structural)]
pub struct ValidChargeback {
    pub tx_id: TxId,
    pub raising_client_id: ClientId,
    pub contended_client_id: ClientId,
    pub amount: Amount,
}

} // verus!
