//! An escrow whose admin moves a user's funds only with the user's consent too.
use vstd::prelude::*;
use crate::host::{Addr, Env, Error, env_after};
use crate::table::{Table, value_or};
use crate::ledger::{moved, move_fits};



verus! {

/// The admin and the balance of each user.
pub struct SecureEscrow {
    admin: Option<Addr>,
    balances: Table<Addr, i128>,
}

impl SecureEscrow {
    pub closed spec fn admin(&self) -> Option<Addr> {
        self.admin
    }

    pub closed spec fn balances(&self) -> Map<Addr, i128> {
        self.balances@
    }

    /// The balance of `a`, zero if none.
    pub open spec fn bal(&self, a: Addr) -> int {
        value_or(self.balances(), a, 0i128) as int
    }

    /// An escrow with no admin and no balances.
    pub fn new() -> (c: Self)
        ensures
            c.admin() is None,
            c.balances() == Map::<Addr, i128>::empty(),
    {
        SecureEscrow { admin: None, balances: Table::new() }
    }

    /// Sets the admin, once.
    pub fn initialize(&mut self, admin: Addr) -> (r: Result<(), Error>)
        ensures
            old(self).admin() is Some <==> r is Err,
            r is Err ==> r == Err::<(), Error>(Error::AlreadyInitialized),
            r is Err ==> *final(self) == *old(self),
            r is Ok ==> final(self).admin() == Some(admin) && final(self).balances() == old(self).balances(),
    {
        if self.admin.is_some() {
            return Err(Error::AlreadyInitialized);
        }
        self.admin = Some(admin);
        Ok(())
    }

    /// Adds `amount` to the balance of `user`, who must authorize.
    pub fn deposit(&mut self, env: &mut Env, user: Addr, amount: i128)
        requires
            i128::MIN <= old(self).bal(user) + amount <= i128::MAX,
        ensures
            env_after(*old(env), *final(env), seq![user], seq![]),
            final(self).admin() == old(self).admin(),
            final(self).balances() == old(self).balances().insert(user, (old(self).bal(user) + amount) as i128),
    {
        env.require_auth(user);
        let current = self.balances.amount(&user);
        self.balances.set(user, current + amount);
    }

    /// Takes `amount` from the balance of `user`, who must authorize; refused
    /// only where the subtraction leaves the range of `i128`.
    pub fn withdraw(&mut self, env: &mut Env, user: Addr, amount: i128) -> (r: Result<(), Error>)
        ensures
            i128::MIN <= old(self).bal(user) - amount <= i128::MAX <==> r is Ok,
            r is Err ==> r == Err::<(), Error>(Error::InsufficientFunds) && *final(self) == *old(self),
            r is Ok ==> {
                &&& env_after(*old(env), *final(env), seq![user], seq![])
                &&& final(self).admin() == old(self).admin()
                &&& final(self).balances() == old(self).balances().insert(user, (old(self).bal(user) - amount) as i128)
            },
    {
        env.require_auth(user);
        let balance = self.balances.amount(&user);
        match balance.checked_sub(amount) {
            Some(v) => {
                self.balances.set(user, v);
                Ok(())
            },
            None => Err(Error::InsufficientFunds),
        }
    }

    /// Moves `amount` from `user` to `recipient`; both the admin and the
    /// user must authorize. Refused before initialization or where the user's balance would
    /// leave the range of `i128`.
    pub fn admin_withdraw(&mut self, env: &mut Env, user: Addr, recipient: Addr, amount: i128) -> (r: Result<(), Error>)
        requires
            old(self).admin() is Some && i128::MIN <= old(self).bal(user) - amount <= i128::MAX
                ==> move_fits(old(self).balances(), user, recipient, amount),
        ensures
            r is Err ==> *final(self) == *old(self),
            old(self).admin() is None ==> r == Err::<(), Error>(Error::NotInitialized),
            old(self).admin() is Some && !(i128::MIN <= old(self).bal(user) - amount <= i128::MAX)
                ==> r == Err::<(), Error>(Error::InsufficientFunds),
            old(self).admin() is Some && i128::MIN <= old(self).bal(user) - amount <= i128::MAX ==> {
                &&& r is Ok
                &&& env_after(*old(env), *final(env), seq![old(self).admin()->0, user], seq![])
                &&& final(self).admin() == old(self).admin()
                &&& final(self).balances() == moved(old(self).balances(), user, recipient, amount)
            },
    {
        let admin = match self.admin {
            Some(a) => a,
            None => {
                return Err(Error::NotInitialized);
            },
        };
        env.require_auth(admin);
        env.require_auth(user);
        let balance = self.balances.amount(&user);
        let new_balance = match balance.checked_sub(amount) {
            Some(v) => v,
            None => {
                return Err(Error::InsufficientFunds);
            },
        };
        self.balances.set(user, new_balance);
        let recipient_bal = self.balances.amount(&recipient);
        self.balances.set(recipient, recipient_bal + amount);
        proof {
            assert(env.auths@ =~= old(env).auths@ + seq![admin, user]);
        }
        Ok(())
    }

    /// The balance of `user`, zero if none.
    pub fn get_balance(&self, user: Addr) -> (r: i128)
        ensures
            r == self.bal(user),
    {
        self.balances.amount(&user)
    }
}

} // verus!
