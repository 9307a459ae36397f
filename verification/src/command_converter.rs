//! The normalizer: maps a raw transaction record into one of the five typed
//! commands, or reports why the record is dropped. Validation here is field
//! presence only; the ledger engine does the stateful checks.

use vstd::prelude::*;

use crate::error::ConvertError;
use crate::transaction::{
    AnyTransaction, Chargeback, CommandType, Deposit, Dispute, Resolve, TransactionCommand,
    Withdrawal,
};

verus! {

/// What [`convert_transaction`] returns: a deposit or withdrawal record
/// needs its amount, the three dispute-lifecycle records carry none, and an
/// unknown command type is dropped.
pub open spec fn spec_convert(tx: AnyTransaction) -> Result<TransactionCommand, ConvertError> {
    match tx.command_type {
        CommandType::Deposit => match tx.amount {
            Some(amount) => Ok(
                TransactionCommand::Deposit(
                    Deposit { client_id: tx.client_id, tx_id: tx.tx_id, amount },
                ),
            ),
            None => Err(ConvertError::MissingAmount),
        },
        CommandType::Withdrawal => match tx.amount {
            Some(amount) => Ok(
                TransactionCommand::Withdrawal(
                    Withdrawal { client_id: tx.client_id, tx_id: tx.tx_id, amount },
                ),
            ),
            None => Err(ConvertError::MissingAmount),
        },
        CommandType::Dispute => Ok(
            TransactionCommand::Dispute(Dispute { client_id: tx.client_id, tx_id: tx.tx_id }),
        ),
        CommandType::Resolve => Ok(
            TransactionCommand::Resolve(Resolve { client_id: tx.client_id, tx_id: tx.tx_id }),
        ),
        CommandType::Chargeback => Ok(
            TransactionCommand::Chargeback(
                Chargeback { client_id: tx.client_id, tx_id: tx.tx_id },
            ),
        ),
        CommandType::Unknown => Err(ConvertError::UnknownCommandType),
    }
}

/// Normalize one raw record into a typed command, or say why it is dropped.
pub fn convert_transaction(tx: &AnyTransaction) -> (result: Result<
    TransactionCommand,
    ConvertError,
>)
    ensures
        result == spec_convert(*tx),
{
    match tx.command_type {
        CommandType::Deposit => match tx.amount {
            Some(amount) => Ok(
                TransactionCommand::Deposit(
                    Deposit { client_id: tx.client_id, tx_id: tx.tx_id, amount },
                ),
            ),
            None => Err(ConvertError::MissingAmount),
        },
        CommandType::Withdrawal => match tx.amount {
            Some(amount) => Ok(
                TransactionCommand::Withdrawal(
                    Withdrawal { client_id: tx.client_id, tx_id: tx.tx_id, amount },
                ),
            ),
            None => Err(ConvertError::MissingAmount),
        },
        CommandType::Dispute => Ok(
            TransactionCommand::Dispute(Dispute { client_id: tx.client_id, tx_id: tx.tx_id }),
        ),
        CommandType::Resolve => Ok(
            TransactionCommand::Resolve(Resolve { client_id: tx.client_id, tx_id: tx.tx_id }),
        ),
        CommandType::Chargeback => Ok(
            TransactionCommand::Chargeback(
                Chargeback { client_id: tx.client_id, tx_id: tx.tx_id },
            ),
        ),
        CommandType::Unknown => Err(ConvertError::UnknownCommandType),
    }
}

} // verus!
