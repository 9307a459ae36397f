//! One client's account: funds available now, funds held pending dispute
//! resolution, and an optional lock.
//!
//! The account's `total` is a derived view, `available + held`; it is never
//! stored, so it cannot drift. `available` may be negative (disputing a
//! deposit that was partly withdrawn freezes more than is available), `held`
//! never is.

use vstd::prelude::*;

use crate::{Amount, Balance};

verus! {

/// Why an account stopped accepting balance-mutating commands.
#[derive(Clone, Copy, Debug, PartialEq, Eq, Structural)]
pub enum LockReason {
    /// A chargeback was applied against one of the account's deposits.
    Chargeback,
}

/// Present on an account that no longer accepts balance-mutating commands.
#[derive(Clone, Copy, Debug, PartialEq, Eq, Structural)]
pub struct Locked {
    pub reason_for_lock: LockReason,
}

/// Funds of one client. Exactly one per client identifier.
#[derive(Clone, Copy, Debug)]
pub struct Account {
    /// Funds usable now: deposited and neither withdrawn nor frozen.
    pub available: Balance,
    /// Funds frozen pending dispute resolution. Never negative.
    pub held: Balance,
    /// Absent, or present with the reason the account was locked.
    pub locked: Option<Locked>,
}

impl Account {
    /// Well-formedness: held funds are never negative, and the derived total
    /// stays representable as a [`Balance`].
    pub open spec fn wf(self) -> bool {
        &&& 0 <= self.held
        &&& self.available + self.held <= i64::MAX
    }

    /// The derived total: funds available or held.
    pub open spec fn spec_total(self) -> int {
        self.available + self.held
    }

    /// Whether the account rejects balance-mutating commands.
    pub open spec fn is_locked(self) -> bool {
        self.locked is Some
    }

    /// A fresh account: zero balances, unlocked.
    pub fn new() -> (account: Account)
        ensures
            account == Account::spec_new(),
    {
        Account { available: 0, held: 0, locked: None }
    }

    /// The account a deposit creates when the client has none yet.
    pub open spec fn spec_new() -> Account {
        Account { available: 0, held: 0, locked: None }
    }

    /// The funds that are available or held: always `available + held`,
    /// computed on demand and never stored.
    pub fn total(&self) -> (total: Balance)
        requires
            self.wf(),
        ensures
            total == self.spec_total(),
    {
        self.available + self.held
    }

    /// Apply a deposit: the amount becomes available.
    pub fn deposit(&mut self, amount: Amount)
        requires
            old(self).wf(),
            old(self).spec_total() + amount <= i64::MAX,
        ensures
            final(self).available == old(self).available + amount,
            final(self).held == old(self).held,
            final(self).locked == old(self).locked,
            final(self).wf(),
    {
        self.available = (self.available as i128 + amount as i128) as i64;
    }

    /// Apply a withdrawal: all-or-nothing, so the caller must have checked
    /// that the amount is covered.
    pub fn withdraw(&mut self, amount: Amount)
        requires
            old(self).wf(),
            amount <= old(self).available,
        ensures
            final(self).available == old(self).available - amount,
            final(self).held == old(self).held,
            final(self).locked == old(self).locked,
            final(self).wf(),
    {
        self.available = (self.available as i128 - amount as i128) as i64;
    }

    /// Open a dispute: the contested amount moves from available to held.
    /// The total is unchanged.
    pub fn freeze_funds(&mut self, amount: Amount)
        requires
            old(self).wf(),
            old(self).held + amount <= i64::MAX,
            i64::MIN <= old(self).available - amount,
        ensures
            final(self).available == old(self).available - amount,
            final(self).held == old(self).held + amount,
            final(self).locked == old(self).locked,
            final(self).wf(),
    {
        self.available = (self.available as i128 - amount as i128) as i64;
        self.held = (self.held as i128 + amount as i128) as i64;
    }

    /// Resolve a dispute: the contested amount moves back from held to
    /// available. The inverse of [`Account::freeze_funds`].
    pub fn thaw_funds(&mut self, amount: Amount)
        requires
            old(self).wf(),
            amount <= old(self).held,
        ensures
            final(self).available == old(self).available + amount,
            final(self).held == old(self).held - amount,
            final(self).locked == old(self).locked,
            final(self).wf(),
    {
        self.available = (self.available as i128 + amount as i128) as i64;
        self.held = (self.held as i128 - amount as i128) as i64;
    }

    /// Apply a chargeback's balance effect: the contested amount leaves the
    /// held funds, and with them the total. The caller locks the account
    /// separately with [`Account::lock_account`].
    pub fn chargeback(&mut self, amount: Amount)
        requires
            old(self).wf(),
            amount <= old(self).held,
        ensures
            final(self).available == old(self).available,
            final(self).held == old(self).held - amount,
            final(self).locked == old(self).locked,
            final(self).wf(),
    {
        self.held = (self.held as i128 - amount as i128) as i64;
    }

    /// Lock the account: no balance-mutating command is accepted any more.
    pub fn lock_account(&mut self, reason_for_lock: LockReason)
        requires
            old(self).wf(),
        ensures
            final(self).available == old(self).available,
            final(self).held == old(self).held,
            final(self).locked == Some(Locked { reason_for_lock }),
            final(self).wf(),
    {
        self.locked = Some(Locked { reason_for_lock });
    }

    /// Remove the lock. The engine never calls this: a chargeback lock is
    /// permanent for the rest of the run. It is offered for inspection-side
    /// tooling working on a snapshot.
    pub fn unlock_account(&mut self)
        requires
            old(self).wf(),
        ensures
            final(self).available == old(self).available,
            final(self).held == old(self).held,
            final(self).locked is None,
            final(self).wf(),
    {
        self.locked = None;
    }
}

} // verus!
