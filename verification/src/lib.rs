//! A verified ledger engine for per-client payment accounts.
//!
//! The engine consumes an ordered stream of transaction commands (deposit,
//! withdrawal, dispute, resolve, chargeback), validates each one against the
//! accumulated state, applies it, and produces the final balance and lock
//! state of every account touched. Monetary amounts are fixed-point values
//! counted in units of 1/10000 of a currency unit, so that the arithmetic on
//! balances is exact.

use vstd::prelude::*;

pub mod account;
pub mod account_manager;
pub mod command_converter;
pub mod error;
pub mod laws;
pub mod model;
pub mod render;
pub mod sums;
pub mod transaction;
pub mod validated_transaction;

verus! {

/// Identifier of an account holder.
pub type ClientId = u16;

/// Identifier of a deposit or withdrawal record; disputes, resolves and
/// chargebacks reference the identifier of the deposit they contest.
pub type TxId = u32;

/// A non-negative monetary amount carried by a command, in fixed-point
/// units of 1/10000 of a currency unit.
pub type Amount = u64;

/// A signed account balance, in the same fixed-point units as [`Amount`].
pub type Balance = i64;

/// Number of fixed-point units in one currency unit: balances and amounts
/// carry four fractional decimal digits.
pub const AMOUNT_SCALE: u64 = 10000;

} // verus!
