//! A price oracle whose prices become readable only after a delay.
use vstd::prelude::*;
use crate::host::{Addr, Env, Error, env_after};

verus! {

/// The number of ledgers a price must age before it is served.
pub const MIN_DELAY: u32 = 5;

/// An admin, the last price and the ledger at which it was set.
pub struct ProtectedOracle {
    admin: Option<Addr>,
    price: i128,
    updated_at: u32,
}

impl ProtectedOracle {
    pub closed spec fn admin(&self) -> Option<Addr> {
        self.admin
    }

    pub closed spec fn price(&self) -> i128 {
        self.price
    }

    pub closed spec fn updated(&self) -> u32 {
        self.updated_at
    }

    /// An oracle with no admin, price zero, set at ledger zero.
    pub fn new() -> (c: Self)
        ensures
            c.admin() is None,
            c.price() == 0,
            c.updated() == 0,
    {
        ProtectedOracle { admin: None, price: 0, updated_at: 0 }
    }

    /// Sets the admin, once.
    pub fn initialize(&mut self, admin: Addr) -> (r: Result<(), Error>)
        ensures
            old(self).admin() is Some <==> r is Err,
            r is Err ==> r == Err::<(), Error>(Error::AlreadyInitialized),
            r is Err ==> *final(self) == *old(self),
            r is Ok ==> final(self).admin() == Some(admin) && final(self).price() == old(self).price()
                && final(self).updated() == old(self).updated(),
    {
        if self.admin.is_some() {
            return Err(Error::AlreadyInitialized);
        }
        self.admin = Some(admin);
        Ok(())
    }

    /// Records `price` at the current ledger; `caller` must authorize and be
    /// the admin.
    pub fn set_price(&mut self, env: &mut Env, caller: Addr, price: i128) -> (r: Result<(), Error>)
        ensures
            r is Err ==> *final(self) == *old(self),
            old(self).admin() is None ==> r == Err::<(), Error>(Error::NotInitialized),
            old(self).admin() is Some && old(self).admin() != Some(caller) ==> r == Err::<(), Error>(Error::NotAdmin),
            old(self).admin() == Some(caller) ==> {
                &&& r is Ok
                &&& env_after(*old(env), *final(env), seq![caller], seq![])
                &&& final(self).admin() == old(self).admin()
                &&& final(self).price() == price
                &&& final(self).updated() == old(env).sequence
            },
    {
        env.require_auth(caller);
        let admin = match self.admin {
            Some(a) => a,
            None => {
                return Err(Error::NotInitialized);
            },
        };
        if caller != admin {
            return Err(Error::NotAdmin);
        }
        self.price = price;
        self.updated_at = env.sequence;
        Ok(())
    }

    /// The price, once at least `MIN_DELAY` ledgers have passed since it was
    /// set; refused before that.
    pub fn get_price(&self, env: &Env) -> (r: Result<i128, Error>)
        requires
            self.updated() + MIN_DELAY <= u32::MAX,
        ensures
            env.sequence < self.updated() + MIN_DELAY ==> r == Err::<i128, Error>(Error::DelayNotElapsed),
            env.sequence >= self.updated() + MIN_DELAY ==> r == Ok::<i128, Error>(self.price()),
    {
        if env.sequence < self.updated_at + MIN_DELAY {
            return Err(Error::DelayNotElapsed);
        }
        Ok(self.price)
    }

    /// The ledger at which the price was last set.
    pub fn updated_at(&self) -> (r: u32)
        ensures
            r == self.updated(),
    {
        self.updated_at
    }

    /// The delay, in ledgers, before a price is served.
    pub fn min_delay(&self) -> (r: u32)
        ensures
            r == MIN_DELAY,
    {
        MIN_DELAY
    }
}

} // verus!
