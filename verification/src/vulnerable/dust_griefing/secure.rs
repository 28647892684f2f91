//! A vault that refuses deposits below a minimum.
use vstd::prelude::*;
use crate::host::{Addr, Env, Error, env_after};
use crate::table::{Table, value_or};
use super::{get_balance, set_balance, MIN_DEPOSIT};

verus! {

/// The balance of each user.
pub struct SecureVault {
    balances: Table<Addr, i128>,
}

impl SecureVault {
    pub closed spec fn balances(&self) -> Map<Addr, i128> {
        self.balances@
    }

    /// Every balance held is at least `MIN_DEPOSIT`: no dust accounts.
    pub open spec fn no_dust(&self) -> bool {
        forall|a: Addr| #[trigger] self.balances().contains_key(a) ==> self.balances()[a] >= MIN_DEPOSIT
    }

    /// A vault with no balances.
    pub fn new() -> (c: Self)
        ensures
            c.no_dust(),
            c.balances() == Map::<Addr, i128>::empty(),
    {
        SecureVault { balances: Table::new() }
    }

    /// Adds `amount` to the balance of `user`, who must authorize; refused
    /// below `MIN_DEPOSIT`.
    pub fn deposit(&mut self, env: &mut Env, user: Addr, amount: i128) -> (r: Result<(), Error>)
        requires
            amount >= MIN_DEPOSIT ==> value_or(old(self).balances(), user, 0i128) + amount <= i128::MAX,
        ensures
            old(self).no_dust() ==> final(self).no_dust(),
            amount < MIN_DEPOSIT <==> r is Err,
            r is Err ==> r == Err::<(), Error>(Error::BelowMinimumDeposit) && *final(self) == *old(self),
            r is Ok ==> {
                &&& env_after(*old(env), *final(env), seq![user], seq![])
                &&& final(self).balances() == old(self).balances().insert(
                    user,
                    (value_or(old(self).balances(), user, 0i128) + amount) as i128,
                )
            },
    {
        env.require_auth(user);
        if amount < MIN_DEPOSIT {
            return Err(Error::BelowMinimumDeposit);
        }
        let bal = get_balance(&self.balances, user);
        set_balance(&mut self.balances, user, bal + amount);
        Ok(())
    }

    /// The balance of `user`, zero if none.
    pub fn balance(&self, user: Addr) -> (r: i128)
        ensures
            r == value_or(self.balances(), user, 0i128),
    {
        get_balance(&self.balances, user)
    }
}

} // verus!
