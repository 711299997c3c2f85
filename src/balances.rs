//! Per-account balances with a reservable part: the deposits that back
//! held assets are moved from an account's free balance to its reserved one.

use vstd::prelude::*;
use std::collections::HashMap;

verus! {

broadcast use vstd::std_specs::hash::group_hash_axioms;

/// The two parts of an account's balance.
#[derive(Clone, Copy, Debug, PartialEq, Eq, Structural)]
pub struct AccountData {
    /// Spendable and transferable.
    pub free: u128,
    /// Locked as a deposit.
    pub reserved: u128,
}

/// Why a movement of funds was refused.
#[derive(Clone, Copy, Debug, PartialEq, Eq, Structural)]
pub enum BalanceError {
    /// The free balance does not cover the amount.
    InsufficientBalance,
    /// The sender would be left with less than the minimum balance.
    KeepAlive,
    /// The receiver would be left with less than the minimum balance.
    ExistentialDeposit,
    /// The receiver's balance would not fit.
    Overflow,
}

/// Total balance of an account, free and reserved together.
pub open spec fn total_of(a: AccountData) -> int {
    a.free + a.reserved
}

/// `a` after `amount` of its free balance is reserved.
pub open spec fn held(a: AccountData, amount: u128) -> AccountData {
    AccountData { free: (a.free - amount) as u128, reserved: (a.reserved + amount) as u128 }
}

/// `a` after up to `amount` of its reserved balance is freed.
pub open spec fn released(a: AccountData, amount: u128) -> AccountData {
    let moved = if a.reserved < amount { a.reserved } else { amount };
    AccountData { free: (a.free + moved) as u128, reserved: (a.reserved - moved) as u128 }
}

/// All accounts' balances, and the least balance an account may keep.
/// An account that was never funded holds nothing.
pub struct Balances {
    accounts: HashMap<u64, AccountData>,
    min_balance: u128,
}

impl Balances {
    /// The balance of `who`.
    pub closed spec fn account(self, who: u64) -> AccountData {
        if self.accounts@.contains_key(who) {
            self.accounts@[who]
        } else {
            AccountData { free: 0, reserved: 0 }
        }
    }

    /// The least balance that a sender must keep, and a receiver must reach.
    pub closed spec fn min_balance_spec(self) -> u128 {
        self.min_balance
    }

    /// Every account's total fits in a `u128`.
    pub closed spec fn wf(self) -> bool {
        forall|who: u64| self.accounts@.contains_key(who) ==> total_of(#[trigger] self.accounts@[who]) <= u128::MAX
    }

    /// In a well-formed state every account's total fits in a `u128`.
    pub proof fn lemma_total_fits(self, who: u64)
        requires
            self.wf(),
        ensures
            total_of(self.account(who)) <= u128::MAX,
    {
    }

    /// `self` and `other` hold the same balances, but maybe for `a` and `b`.
    pub open spec fn same_except(self, other: Self, a: u64, b: u64) -> bool {
        &&& self.min_balance_spec() == other.min_balance_spec()
        &&& forall|x: u64| x != a && x != b ==> #[trigger] self.account(x) == other.account(x)
    }

    /// `self` and `other` hold the same balances.
    pub open spec fn same_as(self, other: Self) -> bool {
        &&& self.min_balance_spec() == other.min_balance_spec()
        &&& forall|x: u64| #[trigger] self.account(x) == other.account(x)
    }

    /// No account holds anything yet.
    pub fn new(min_balance: u128) -> (r: Self)
        ensures
            r.wf(),
            r.min_balance_spec() == min_balance,
            forall|x: u64| #[trigger] r.account(x) == (AccountData { free: 0, reserved: 0 }),
    {
        Balances { accounts: HashMap::new(), min_balance }
    }

    /// A copy of the balances, for staging a change that may yet fail.
    pub fn snapshot(&self) -> (r: Self)
        requires
            self.wf(),
        ensures
            r.wf(),
            r.same_as(*self),
    {
        let accounts = self.accounts.clone();
        Balances { accounts, min_balance: self.min_balance }
    }

    fn get(&self, who: u64) -> (r: AccountData)
        ensures
            r == self.account(who),
    {
        match self.accounts.get(&who) {
            Some(a) => *a,
            None => AccountData { free: 0, reserved: 0 },
        }
    }

    fn put(&mut self, who: u64, a: AccountData)
        requires
            old(self).wf(),
            total_of(a) <= u128::MAX,
        ensures
            final(self).wf(),
            final(self).account(who) == a,
            final(self).same_except(*old(self), who, who),
    {
        self.accounts.insert(who, a);
    }

    /// The least balance that a sender must keep, and a receiver must reach.
    pub fn min_balance(&self) -> (r: u128)
        ensures
            r == self.min_balance_spec(),
    {
        self.min_balance
    }

    /// The free balance of `who`.
    pub fn free_balance(&self, who: u64) -> (r: u128)
        ensures
            r == self.account(who).free,
    {
        self.get(who).free
    }

    /// The reserved balance of `who`.
    pub fn reserved_balance(&self, who: u64) -> (r: u128)
        ensures
            r == self.account(who).reserved,
    {
        self.get(who).reserved
    }

    /// Sets the free balance of `who`, keeping what it has reserved.
    pub fn set_free_balance(&mut self, who: u64, free: u128)
        requires
            old(self).wf(),
            old(self).account(who).reserved + free <= u128::MAX,
        ensures
            final(self).wf(),
            final(self).account(who) == (AccountData { free, reserved: old(self).account(who).reserved }),
            final(self).same_except(*old(self), who, who),
    {
        let a = self.get(who);
        self.put(who, AccountData { free, reserved: a.reserved });
    }

    /// Moves `amount` from the free balance of `who` to its reserved one;
    /// refused, with nothing changed, where the free balance is short.
    pub fn reserve(&mut self, who: u64, amount: u128) -> (r: Result<(), BalanceError>)
        requires
            old(self).wf(),
        ensures
            final(self).wf(),
            r is Ok <==> old(self).account(who).free >= amount,
            r is Err ==> r == Err::<(), BalanceError>(BalanceError::InsufficientBalance) && *final(self) == *old(self),
            r is Ok ==> final(self).account(who) == held(old(self).account(who), amount),
            r is Ok ==> final(self).same_except(*old(self), who, who),
    {
        let a = self.get(who);
        if a.free < amount {
            return Err(BalanceError::InsufficientBalance);
        }
        self.put(who, AccountData { free: a.free - amount, reserved: a.reserved + amount });
        Ok(())
    }

    /// Moves back to the free balance of `who` as much of `amount` as it has
    /// reserved, and returns the part of `amount` that was not reserved.
    pub fn unreserve(&mut self, who: u64, amount: u128) -> (r: u128)
        requires
            old(self).wf(),
        ensures
            final(self).wf(),
            final(self).account(who) == released(old(self).account(who), amount),
            r == amount - (old(self).account(who).reserved - final(self).account(who).reserved),
            final(self).same_except(*old(self), who, who),
    {
        let a = self.get(who);
        let moved = if a.reserved < amount { a.reserved } else { amount };
        self.put(who, AccountData { free: a.free + moved, reserved: a.reserved - moved });
        amount - moved
    }

    /// Whether a transfer of `amount` from `from` to the distinct `to` is
    /// refused, and why: the sender must cover it and keep the minimum
    /// balance, and the receiver must reach the minimum balance and stay
    /// within range.
    pub open spec fn transfer_refusal(self, from: u64, to: u64, amount: u128) -> Option<BalanceError> {
        let f = self.account(from);
        let t = self.account(to);
        if f.free < amount {
            Some(BalanceError::InsufficientBalance)
        } else if f.free - amount < self.min_balance_spec() {
            Some(BalanceError::KeepAlive)
        } else if total_of(t) + amount > u128::MAX {
            Some(BalanceError::Overflow)
        } else if t.free + amount < self.min_balance_spec() {
            Some(BalanceError::ExistentialDeposit)
        } else {
            None
        }
    }

    /// Moves `amount` from the free balance of `from` to that of `to`,
    /// keeping the sender alive; refused, with nothing changed, as
    /// `transfer_refusal` says.
    pub fn transfer(&mut self, from: u64, to: u64, amount: u128) -> (r: Result<(), BalanceError>)
        requires
            old(self).wf(),
            from != to,
        ensures
            final(self).wf(),
            match old(self).transfer_refusal(from, to, amount) {
                Some(e) => r == Err::<(), BalanceError>(e) && *final(self) == *old(self),
                None => {
                    &&& r is Ok
                    &&& final(self).account(from) == (AccountData {
                        free: (old(self).account(from).free - amount) as u128,
                        reserved: old(self).account(from).reserved,
                    })
                    &&& final(self).account(to) == (AccountData {
                        free: (old(self).account(to).free + amount) as u128,
                        reserved: old(self).account(to).reserved,
                    })
                    &&& final(self).same_except(*old(self), from, to)
                },
            },
    {
        let f = self.get(from);
        let t = self.get(to);
        if f.free < amount {
            return Err(BalanceError::InsufficientBalance);
        }
        if f.free - amount < self.min_balance {
            return Err(BalanceError::KeepAlive);
        }
        if t.reserved > u128::MAX - t.free || amount > u128::MAX - t.free - t.reserved {
            return Err(BalanceError::Overflow);
        }
        if t.free + amount < self.min_balance {
            return Err(BalanceError::ExistentialDeposit);
        }
        self.put(from, AccountData { free: f.free - amount, reserved: f.reserved });
        self.put(to, AccountData { free: t.free + amount, reserved: t.reserved });
        Ok(())
    }
}

} // verus!
