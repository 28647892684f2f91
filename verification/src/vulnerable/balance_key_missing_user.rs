//! Deposits stored per asset only, so that each deposit replaces the last.
use vstd::prelude::*;
use crate::host::{Addr, Env, Sym, env_after};
use crate::table::{Table, value_or};

verus! {

/// One stored amount per asset, whoever deposited it.
pub struct BalanceKeyMissingUserContract {
    balances: Table<Sym, i128>,
}

impl BalanceKeyMissingUserContract {
    pub closed spec fn balances(&self) -> Map<Sym, i128> {
        self.balances@
    }

    /// A contract with no deposits.
    pub fn new() -> (c: Self)
        ensures
            c.balances() == Map::<Sym, i128>::empty(),
    {
        BalanceKeyMissingUserContract { balances: Table::new() }
    }

    /// Stores `amount` as the balance of `asset`, replacing what any user
    /// deposited before; `user` must authorize.
    pub fn deposit(&mut self, env: &mut Env, user: Addr, asset: Sym, amount: i128)
        ensures
            env_after(*old(env), *final(env), seq![user], seq![]),
            final(self).balances() == old(self).balances().insert(asset, amount),
    {
        env.require_auth(user);
        self.balances.set(asset, amount);
    }

    /// The amount stored for `asset`, zero if none.
    pub fn balance(&self, asset: Sym) -> (r: i128)
        ensures
            r == value_or(self.balances(), asset, 0i128),
    {
        self.balances.amount(&asset)
    }
}

} // verus!
