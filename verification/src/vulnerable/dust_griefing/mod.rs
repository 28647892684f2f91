//! A vault that accepts deposits of any size.
use vstd::prelude::*;
use crate::host::{Addr, Env, env_after};
use crate::table::{Table, value_or};

pub mod secure;

verus! {

/// The smallest deposit the guarded vault accepts.
pub const MIN_DEPOSIT: i128 = 1_000;

/// The balance of `user` in `balances`, zero if none.
pub fn get_balance(balances: &Table<Addr, i128>, user: Addr) -> (r: i128)
    ensures
        r == value_or(balances@, user, 0i128),
{
    balances.amount(&user)
}

/// Sets the balance of `user` in `balances` to `amount`.
pub fn set_balance(balances: &mut Table<Addr, i128>, user: Addr, amount: i128)
    ensures
        final(balances)@ == old(balances)@.insert(user, amount),
{
    balances.set(user, amount);
}

/// The balance of each user.
pub struct DustGriefingVault {
    balances: Table<Addr, i128>,
}

impl DustGriefingVault {
    pub closed spec fn balances(&self) -> Map<Addr, i128> {
        self.balances@
    }

    /// A vault with no balances.
    pub fn new() -> (c: Self)
        ensures
            c.balances() == Map::<Addr, i128>::empty(),
    {
        DustGriefingVault { balances: Table::new() }
    }

    /// Adds `amount`, however small, to the balance of `user`, who must
    /// authorize.
    pub fn deposit(&mut self, env: &mut Env, user: Addr, amount: i128)
        requires
            i128::MIN <= value_or(old(self).balances(), user, 0i128) + amount <= i128::MAX,
        ensures
            env_after(*old(env), *final(env), seq![user], seq![]),
            final(self).balances() == old(self).balances().insert(
                user,
                (value_or(old(self).balances(), user, 0i128) + amount) as i128,
            ),
    {
        env.require_auth(user);
        let bal = get_balance(&self.balances, user);
        set_balance(&mut self.balances, user, bal + amount);
    }

    /// The balance of `user`, zero if none.
    pub fn balance(&self, user: Addr) -> (r: i128)
        ensures
            r == value_or(self.balances(), user, 0i128),
    {
        get_balance(&self.balances, user)
    }
}

} // verus!
