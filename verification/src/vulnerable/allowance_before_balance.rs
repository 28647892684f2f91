//! A token whose delegated transfers check allowance and balance in either
//! order.
use vstd::prelude::*;
use crate::host::{Addr, Env, Error, env_after};
use crate::table::{Table, value_or};
use crate::ledger::{moved, move_fits};

verus! {

/// Balances per holder and allowances per (owner, spender).
pub struct TokenContract {
    balances: Table<Addr, i128>,
    allowances: Table<(Addr, Addr), i128>,
}

impl TokenContract {
    pub closed spec fn balances(&self) -> Map<Addr, i128> {
        self.balances@
    }

    pub closed spec fn allowances(&self) -> Map<(Addr, Addr), i128> {
        self.allowances@
    }

    /// The balance of `a`, zero if none.
    pub open spec fn bal(&self, a: Addr) -> int {
        value_or(self.balances(), a, 0i128) as int
    }

    /// What `spender` may move of `owner`'s balance, zero if nothing set.
    pub open spec fn allowed(&self, owner: Addr, spender: Addr) -> int {
        value_or(self.allowances(), (owner, spender), 0i128) as int
    }

    /// A token with no balances and no allowances.
    pub fn new() -> (c: Self)
        ensures
            c.balances() == Map::<Addr, i128>::empty(),
            c.allowances() == Map::<(Addr, Addr), i128>::empty(),
    {
        TokenContract { balances: Table::new(), allowances: Table::new() }
    }

    /// Adds `amount` to the balance of `to`.
    pub fn mint(&mut self, to: Addr, amount: i128)
        requires
            i128::MIN <= old(self).bal(to) + amount <= i128::MAX,
        ensures
            final(self).balances() == old(self).balances().insert(to, (old(self).bal(to) + amount) as i128),
            final(self).allowances() == old(self).allowances(),
    {
        let b = self.balances.amount(&to);
        self.balances.set(to, b + amount);
    }

    /// Sets what `spender` may move of `owner`'s balance; `owner` must
    /// authorize.
    pub fn approve(&mut self, env: &mut Env, owner: Addr, spender: Addr, amount: i128)
        ensures
            env_after(*old(env), *final(env), seq![owner], seq![]),
            final(self).balances() == old(self).balances(),
            final(self).allowances() == old(self).allowances().insert((owner, spender), amount),
    {
        env.require_auth(owner);
        self.allowances.set((owner, spender), amount);
    }

    /// The balance of `addr`, zero if none.
    pub fn balance(&self, addr: Addr) -> (r: i128)
        ensures
            r == self.bal(addr),
    {
        self.balances.amount(&addr)
    }

    /// What `spender` may move of `owner`'s balance.
    pub fn allowance(&self, owner: Addr, spender: Addr) -> (r: i128)
        ensures
            r == self.allowed(owner, spender),
    {
        self.allowances.amount(&(owner, spender))
    }

    /// Moves `amount` from `from` to `to` on behalf of `spender`, who must
    /// authorize, spending the allowance. The allowance is checked first and
    /// then the balance.
    pub fn transfer_from_vulnerable(&mut self, env: &mut Env, spender: Addr, from: Addr, to: Addr, amount: i128) -> (r: Result<(), Error>)
        requires
            old(self).allowed(from, spender) >= amount && old(self).bal(from) >= amount ==> {
                &&& old(self).allowed(from, spender) - amount <= i128::MAX
                &&& move_fits(old(self).balances(), from, to, amount)
            },
        ensures
            r is Err ==> *final(self) == *old(self),
            old(self).allowed(from, spender) < amount ==> r == Err::<(), Error>(Error::InsufficientAllowance),
            old(self).allowed(from, spender) >= amount && old(self).bal(from) < amount
                ==> r == Err::<(), Error>(Error::InsufficientBalance),
            old(self).allowed(from, spender) >= amount && old(self).bal(from) >= amount ==> {
                &&& r is Ok
                &&& env_after(*old(env), *final(env), seq![spender], seq![])
                &&& final(self).balances() == moved(old(self).balances(), from, to, amount)
                &&& final(self).allowances() == old(self).allowances().insert(
                    (from, spender),
                    (old(self).allowed(from, spender) - amount) as i128,
                )
            },
    {
        env.require_auth(spender);
        let allowance = self.allowances.amount(&(from, spender));
        if allowance < amount {
            return Err(Error::InsufficientAllowance);
        }
        let from_bal = self.balances.amount(&from);
        if from_bal < amount {
            return Err(Error::InsufficientBalance);
        }
        self.allowances.set((from, spender), allowance - amount);
        self.balances.set(from, from_bal - amount);
        let to_bal = self.balances.amount(&to);
        self.balances.set(to, to_bal + amount);
        Ok(())
    }

    /// Moves `amount` from `from` to `to` on behalf of `spender`, who must
    /// authorize, spending the allowance. The balance is checked first and
    /// then the allowance.
    pub fn transfer_from(&mut self, env: &mut Env, spender: Addr, from: Addr, to: Addr, amount: i128) -> (r: Result<(), Error>)
        requires
            old(self).allowed(from, spender) >= amount && old(self).bal(from) >= amount ==> {
                &&& old(self).allowed(from, spender) - amount <= i128::MAX
                &&& move_fits(old(self).balances(), from, to, amount)
            },
        ensures
            r is Err ==> *final(self) == *old(self),
            old(self).bal(from) < amount ==> r == Err::<(), Error>(Error::InsufficientBalance),
            old(self).bal(from) >= amount && old(self).allowed(from, spender) < amount
                ==> r == Err::<(), Error>(Error::InsufficientAllowance),
            old(self).allowed(from, spender) >= amount && old(self).bal(from) >= amount ==> {
                &&& r is Ok
                &&& env_after(*old(env), *final(env), seq![spender], seq![])
                &&& final(self).balances() == moved(old(self).balances(), from, to, amount)
                &&& final(self).allowances() == old(self).allowances().insert(
                    (from, spender),
                    (old(self).allowed(from, spender) - amount) as i128,
                )
            },
    {
        env.require_auth(spender);
        let from_bal = self.balances.amount(&from);
        if from_bal < amount {
            return Err(Error::InsufficientBalance);
        }
        let allowance = self.allowances.amount(&(from, spender));
        if allowance < amount {
            return Err(Error::InsufficientAllowance);
        }
        self.balances.set(from, from_bal - amount);
        let to_bal = self.balances.amount(&to);
        self.balances.set(to, to_bal + amount);
        self.allowances.set((from, spender), allowance - amount);
        Ok(())
    }
}

} // verus!
