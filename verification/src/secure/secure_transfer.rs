//! A token whose transfers use checked arithmetic and refuse self-transfers.
use vstd::prelude::*;
use crate::ledger::moved;
use crate::host::{Addr, Env, Error, env_after};
use crate::table::{Table, value_or};

verus! {

/// Balances per holder.
pub struct SecureToken {
    balances: Table<Addr, i128>,
}

impl SecureToken {
    pub closed spec fn balances(&self) -> Map<Addr, i128> {
        self.balances@
    }

    /// The balance of `a`, zero if none.
    pub open spec fn bal(&self, a: Addr) -> int {
        value_or(self.balances(), a, 0i128) as int
    }

    /// A token with no balances.
    pub fn new() -> (c: Self)
        ensures
            c.balances() == Map::<Addr, i128>::empty(),
    {
        SecureToken { balances: Table::new() }
    }

    /// Adds `amount` to the balance of `to`; refused where it would overflow.
    pub fn mint(&mut self, to: Addr, amount: i128) -> (r: Result<(), Error>)
        ensures
            i128::MIN <= old(self).bal(to) + amount <= i128::MAX <==> r is Ok,
            r is Err ==> r == Err::<(), Error>(Error::Overflow) && *final(self) == *old(self),
            r is Ok ==> final(self).balances() == old(self).balances().insert(to, (old(self).bal(to) + amount) as i128),
    {
        let current = self.balances.amount(&to);
        match current.checked_add(amount) {
            Some(v) => {
                self.balances.set(to, v);
                Ok(())
            },
            None => Err(Error::Overflow),
        }
    }

    /// The balance of `account`, zero if none.
    pub fn balance(&self, account: Addr) -> (r: i128)
        ensures
            r == self.bal(account),
    {
        self.balances.amount(&account)
    }

    /// Moves `amount` from `from`, who must authorize, to a different `to`.
    /// Refused for a self-transfer, or where either balance would leave the
    /// range of `i128`.
    pub fn transfer(&mut self, env: &mut Env, from: Addr, to: Addr, amount: i128) -> (r: Result<(), Error>)
        ensures
            r is Err ==> *final(self) == *old(self),
            from == to ==> r == Err::<(), Error>(Error::SelfTransfer),
            from != to && !(i128::MIN <= old(self).bal(from) - amount <= i128::MAX) ==> r == Err::<(), Error>(Error::Underflow),
            from != to && i128::MIN <= old(self).bal(from) - amount <= i128::MAX
                && !(i128::MIN <= old(self).bal(to) + amount <= i128::MAX) ==> r == Err::<(), Error>(Error::Overflow),
            from != to && i128::MIN <= old(self).bal(from) - amount <= i128::MAX
                && i128::MIN <= old(self).bal(to) + amount <= i128::MAX ==> {
                &&& r is Ok
                &&& env_after(*old(env), *final(env), seq![from], seq![])
                &&& final(self).balances() == moved(old(self).balances(), from, to, amount)
            },
    {
        if from == to {
            return Err(Error::SelfTransfer);
        }
        env.require_auth(from);
        let from_balance = self.balances.amount(&from);
        let to_balance = self.balances.amount(&to);
        let new_from = match from_balance.checked_sub(amount) {
            Some(v) => v,
            None => {
                return Err(Error::Underflow);
            },
        };
        let new_to = match to_balance.checked_add(amount) {
            Some(v) => v,
            None => {
                return Err(Error::Overflow);
            },
        };
        self.balances.set(from, new_from);
        self.balances.set(to, new_to);
        Ok(())
    }
}

} // verus!
