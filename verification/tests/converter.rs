//! The normalizer: raw records become typed commands, or are dropped with
//! the exact reason.

use ledger::command_converter::convert_transaction;
use ledger::error::ConvertError;
use ledger::transaction::{AnyTransaction, CommandType, TransactionCommand};

#[test]
fn test_command_converter() {
    let commands = vec![
        convert_transaction(&AnyTransaction {
            command_type: CommandType::Deposit,
            client_id: 1,
            tx_id: 1,
            amount: Some(10000),
        })
        .unwrap(),
        convert_transaction(&AnyTransaction {
            command_type: CommandType::Withdrawal,
            client_id: 2,
            tx_id: 2,
            amount: Some(20000),
        })
        .unwrap(),
    ];

    assert_eq!(commands.len(), 2);

    match &commands[0] {
        TransactionCommand::Deposit(deposit) => {
            assert_eq!(deposit.client_id, 1);
            assert_eq!(deposit.tx_id, 1);
            assert_eq!(deposit.amount, 10000);
        }
        _ => panic!("Expected Deposit command"),
    }

    match &commands[1] {
        TransactionCommand::Withdrawal(withdrawal) => {
            assert_eq!(withdrawal.client_id, 2);
            assert_eq!(withdrawal.tx_id, 2);
            assert_eq!(withdrawal.amount, 20000);
        }
        _ => panic!("Expected Withdrawal command"),
    }
}

#[test]
fn test_convert_dispute_lifecycle() {
    let record = AnyTransaction {
        command_type: CommandType::Dispute,
        client_id: 3,
        tx_id: 9,
        amount: None,
    };
    match convert_transaction(&record).unwrap() {
        TransactionCommand::Dispute(dispute) => {
            assert_eq!(dispute.client_id, 3);
            assert_eq!(dispute.tx_id, 9);
        }
        _ => panic!("Expected Dispute command"),
    }

    let record = AnyTransaction { command_type: CommandType::Resolve, ..record };
    assert!(matches!(
        convert_transaction(&record).unwrap(),
        TransactionCommand::Resolve(_)
    ));

    let record = AnyTransaction { command_type: CommandType::Chargeback, ..record };
    assert!(matches!(
        convert_transaction(&record).unwrap(),
        TransactionCommand::Chargeback(_)
    ));
}

#[test]
fn test_convert_missing_amount() {
    let deposit = AnyTransaction {
        command_type: CommandType::Deposit,
        client_id: 1,
        tx_id: 1,
        amount: None,
    };
    assert_eq!(convert_transaction(&deposit), Err(ConvertError::MissingAmount));

    let withdrawal = AnyTransaction { command_type: CommandType::Withdrawal, ..deposit };
    assert_eq!(convert_transaction(&withdrawal), Err(ConvertError::MissingAmount));
}

#[test]
fn test_convert_unknown_command_type() {
    let record = AnyTransaction {
        command_type: CommandType::Unknown,
        client_id: 1,
        tx_id: 1,
        amount: Some(100),
    };
    assert_eq!(convert_transaction(&record), Err(ConvertError::UnknownCommandType));
}
