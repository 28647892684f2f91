//! A token whose transfers an administrator can pause.
use vstd::prelude::*;
use crate::host::{Addr, Env, Error, Event, Transfer, TtlExtension, env_after, env_after_all};
use crate::table::{Table, value_or};

verus! {

/// An admin, a pause flag and balances per holder.
pub struct SecurePausable {
    admin: Option<Addr>,
    paused: bool,
    balances: Table<Addr, i128>,
}

impl SecurePausable {
    pub closed spec fn admin(&self) -> Option<Addr> {
        self.admin
    }

    pub closed spec fn paused(&self) -> bool {
        self.paused
    }

    pub closed spec fn balances(&self) -> Map<Addr, i128> {
        self.balances@
    }

    /// The balance of `a`, zero if none.
    pub open spec fn bal(&self, a: Addr) -> int {
        value_or(self.balances(), a, 0i128) as int
    }

    /// A contract with no admin, unpaused, with no balances.
    pub fn new() -> (c: Self)
        ensures
            c.admin() is None,
            !c.paused(),
            c.balances() == Map::<Addr, i128>::empty(),
    {
        SecurePausable { admin: None, paused: false, balances: Table::new() }
    }

    /// Sets the admin and clears the pause flag, once.
    pub fn initialize(&mut self, admin: Addr) -> (r: Result<(), Error>)
        ensures
            old(self).admin() is Some <==> r is Err,
            r is Err ==> r == Err::<(), Error>(Error::AlreadyInitialized),
            r is Err ==> *final(self) == *old(self),
            r is Ok ==> final(self).admin() == Some(admin) && !final(self).paused()
                && final(self).balances() == old(self).balances(),
    {
        if self.admin.is_some() {
            return Err(Error::AlreadyInitialized);
        }
        self.admin = Some(admin);
        self.paused = false;
        Ok(())
    }

    /// Adds `amount` to the balance of `to`; the admin must authorize.
    pub fn mint(&mut self, env: &mut Env, to: Addr, amount: i128) -> (r: Result<(), Error>)
        requires
            old(self).admin() is Some ==> i128::MIN <= old(self).bal(to) + amount <= i128::MAX,
        ensures
            old(self).admin() is None <==> r is Err,
            r is Err ==> r == Err::<(), Error>(Error::NotInitialized),
            r is Err ==> *final(self) == *old(self),
            r is Ok ==> {
                &&& env_after(*old(env), *final(env), seq![old(self).admin()->0], seq![])
                &&& final(self).admin() == old(self).admin()
                &&& final(self).paused() == old(self).paused()
                &&& final(self).balances() == old(self).balances().insert(to, (old(self).bal(to) + amount) as i128)
            },
    {
        let admin = match self.admin {
            Some(a) => a,
            None => {
                return Err(Error::NotInitialized);
            },
        };
        env.require_auth(admin);
        let balance = self.balances.amount(&to);
        self.balances.set(to, balance + amount);
        Ok(())
    }

    /// Sets the pause flag to `paused` and publishes the matching event; the
    /// admin must authorize.
    fn set_paused(&mut self, env: &mut Env, paused: bool) -> (r: Result<(), Error>)
        ensures
            old(self).admin() is None <==> r is Err,
            r is Err ==> r == Err::<(), Error>(Error::NotInitialized),
            r is Err ==> *final(self) == *old(self),
            r is Ok ==> {
                &&& env_after_all(
                    *old(env),
                    *final(env),
                    seq![old(self).admin()->0],
                    seq![],
                    seq![
                        if paused {
                            Event::Paused { admin: old(self).admin()->0 }
                        } else {
                            Event::Unpaused { admin: old(self).admin()->0 }
                        },
                    ],
                    seq![],
                )
                &&& final(self).admin() == old(self).admin()
                &&& final(self).paused() == paused
                &&& final(self).balances() == old(self).balances()
            },
    {
        let admin = match self.admin {
            Some(a) => a,
            None => {
                return Err(Error::NotInitialized);
            },
        };
        env.require_auth(admin);
        self.paused = paused;
        let event = if paused {
            Event::Paused { admin }
        } else {
            Event::Unpaused { admin }
        };
        env.publish(event);
        proof {
            assert(env.auths@ =~= old(env).auths@ + seq![admin]);
            assert(env.transfers@ =~= old(env).transfers@ + Seq::<Transfer>::empty());
            assert(env.events@ =~= old(env).events@ + seq![event]);
            assert(env.ttl_extensions@ =~= old(env).ttl_extensions@ + Seq::<TtlExtension>::empty());
        }
        Ok(())
    }

    /// Pauses transfers and publishes a `Paused` event; the admin must
    /// authorize.
    pub fn pause(&mut self, env: &mut Env) -> (r: Result<(), Error>)
        ensures
            old(self).admin() is None <==> r is Err,
            r is Err ==> r == Err::<(), Error>(Error::NotInitialized),
            r is Err ==> *final(self) == *old(self),
            r is Ok ==> {
                &&& env_after_all(
                    *old(env),
                    *final(env),
                    seq![old(self).admin()->0],
                    seq![],
                    seq![Event::Paused { admin: old(self).admin()->0 }],
                    seq![],
                )
                &&& final(self).admin() == old(self).admin()
                &&& final(self).paused()
                &&& final(self).balances() == old(self).balances()
            },
    {
        self.set_paused(env, true)
    }

    /// Resumes transfers and publishes an `Unpaused` event; the admin must
    /// authorize.
    pub fn unpause(&mut self, env: &mut Env) -> (r: Result<(), Error>)
        ensures
            old(self).admin() is None <==> r is Err,
            r is Err ==> r == Err::<(), Error>(Error::NotInitialized),
            r is Err ==> *final(self) == *old(self),
            r is Ok ==> {
                &&& env_after_all(
                    *old(env),
                    *final(env),
                    seq![old(self).admin()->0],
                    seq![],
                    seq![Event::Unpaused { admin: old(self).admin()->0 }],
                    seq![],
                )
                &&& final(self).admin() == old(self).admin()
                &&& !final(self).paused()
                &&& final(self).balances() == old(self).balances()
            },
    {
        self.set_paused(env, false)
    }

    /// Moves `amount` from `from`, who must authorize, to `to`. Refused while
    /// paused, or where the sender's balance would leave the range of `i128`;
    /// the balance may become negative.
    pub fn transfer(&mut self, env: &mut Env, from: Addr, to: Addr, amount: i128) -> (r: Result<(), Error>)
        requires
            !old(self).paused() && i128::MIN <= old(self).bal(from) - amount <= i128::MAX
                ==> i128::MIN <= old(self).bal(to) + amount <= i128::MAX,
        ensures
            r is Err ==> *final(self) == *old(self),
            old(self).paused() ==> r == Err::<(), Error>(Error::Paused),
            !old(self).paused() && !(i128::MIN <= old(self).bal(from) - amount <= i128::MAX)
                ==> r == Err::<(), Error>(Error::InsufficientBalance),
            !old(self).paused() && i128::MIN <= old(self).bal(from) - amount <= i128::MAX ==> {
                &&& r is Ok
                &&& env_after(*old(env), *final(env), seq![from], seq![])
                &&& final(self).admin() == old(self).admin()
                &&& final(self).paused() == old(self).paused()
                &&& final(self).balances() == old(self).balances()
                    .insert(from, (old(self).bal(from) - amount) as i128)
                    .insert(to, (old(self).bal(to) + amount) as i128)
            },
    {
        if self.paused {
            return Err(Error::Paused);
        }
        env.require_auth(from);
        let from_balance = self.balances.amount(&from);
        let to_balance = self.balances.amount(&to);
        let new_from = match from_balance.checked_sub(amount) {
            Some(v) => v,
            None => {
                return Err(Error::InsufficientBalance);
            },
        };
        self.balances.set(from, new_from);
        self.balances.set(to, to_balance + amount);
        Ok(())
    }

    /// Replaces the admin with `new_admin`; the current admin must authorize.
    pub fn set_admin(&mut self, env: &mut Env, new_admin: Addr) -> (r: Result<(), Error>)
        ensures
            old(self).admin() is None <==> r is Err,
            r is Err ==> r == Err::<(), Error>(Error::NotInitialized),
            r is Err ==> *final(self) == *old(self),
            r is Ok ==> {
                &&& env_after(*old(env), *final(env), seq![old(self).admin()->0], seq![])
                &&& final(self).admin() == Some(new_admin)
                &&& final(self).paused() == old(self).paused()
                &&& final(self).balances() == old(self).balances()
            },
    {
        let current_admin = match self.admin {
            Some(a) => a,
            None => {
                return Err(Error::NotInitialized);
            },
        };
        env.require_auth(current_admin);
        self.admin = Some(new_admin);
        Ok(())
    }

    /// The admin; refused before initialization.
    pub fn get_admin(&self) -> (r: Result<Addr, Error>)
        ensures
            match self.admin() {
                Some(a) => r == Ok::<Addr, Error>(a),
                None => r == Err::<Addr, Error>(Error::NotInitialized),
            },
    {
        match self.admin {
            Some(a) => Ok(a),
            None => Err(Error::NotInitialized),
        }
    }

    /// Whether transfers are paused.
    pub fn is_paused(&self) -> (r: bool)
        ensures
            r == self.paused(),
    {
        self.paused
    }

    /// The balance of `account`, zero if none.
    pub fn balance(&self, account: Addr) -> (r: i128)
        ensures
            r == self.bal(account),
    {
        self.balances.amount(&account)
    }
}

} // verus!
