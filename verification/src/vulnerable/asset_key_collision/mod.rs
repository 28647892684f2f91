//! Multi-asset deposits stored under a key that omits the asset.
use vstd::prelude::*;
use crate::host::{Addr, Env, env_after};
use crate::table::{Table, value_or};

pub mod secure;

verus! {

/// One balance per user, whatever the asset.
pub struct AssetKeyCollisionContract {
    balances: Table<Addr, i128>,
}

impl AssetKeyCollisionContract {
    pub closed spec fn balances(&self) -> Map<Addr, i128> {
        self.balances@
    }

    /// A contract with no deposits.
    pub fn new() -> (c: Self)
        ensures
            c.balances() == Map::<Addr, i128>::empty(),
    {
        AssetKeyCollisionContract { balances: Table::new() }
    }

    /// Adds `amount` to the single balance of `user`, who must authorize,
    /// whichever asset is named.
    pub fn deposit(&mut self, env: &mut Env, user: Addr, asset: Addr, amount: i128)
        requires
            i128::MIN <= value_or(old(self).balances(), user, 0i128) + amount <= i128::MAX,
        ensures
            env_after(*old(env), *final(env), seq![user], seq![]),
            final(self).balances() == old(self).balances().insert(
                user,
                (value_or(old(self).balances(), user, 0i128) + amount) as i128,
            ),
    {
        env.require_auth(user);
        let bal = self.balances.amount(&user);
        self.balances.set(user, bal + amount);
    }

    /// The single balance of `user`, whichever asset is named.
    pub fn balance(&self, user: Addr, asset: Addr) -> (r: i128)
        ensures
            r == value_or(self.balances(), user, 0i128),
    {
        self.balances.amount(&user)
    }
}

} // verus!
