//! Multi-asset deposits stored per (user, asset).
use vstd::prelude::*;
use crate::host::{Addr, Env, env_after};
use crate::table::{Table, value_or};

verus! {

/// A balance per (user, asset).
pub struct SecureVault {
    balances: Table<(Addr, Addr), i128>,
}

impl SecureVault {
    pub closed spec fn balances(&self) -> Map<(Addr, Addr), i128> {
        self.balances@
    }

    /// A vault with no deposits.
    pub fn new() -> (c: Self)
        ensures
            c.balances() == Map::<(Addr, Addr), i128>::empty(),
    {
        SecureVault { balances: Table::new() }
    }

    /// Adds `amount` to the balance of `user`, who must authorize, in `asset`.
    pub fn deposit(&mut self, env: &mut Env, user: Addr, asset: Addr, amount: i128)
        requires
            i128::MIN <= value_or(old(self).balances(), (user, asset), 0i128) + amount <= i128::MAX,
        ensures
            env_after(*old(env), *final(env), seq![user], seq![]),
            final(self).balances() == old(self).balances().insert(
                (user, asset),
                (value_or(old(self).balances(), (user, asset), 0i128) + amount) as i128,
            ),
    {
        env.require_auth(user);
        let bal = self.balances.amount(&(user, asset));
        self.balances.set((user, asset), bal + amount);
    }

    /// The balance of `user` in `asset`, zero if none.
    pub fn balance(&self, user: Addr, asset: Addr) -> (r: i128)
        ensures
            r == value_or(self.balances(), (user, asset), 0i128),
    {
        self.balances.amount(&(user, asset))
    }
}

} // verus!
