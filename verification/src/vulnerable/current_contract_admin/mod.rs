//! An admin that defaults to the contract's own address.
use vstd::prelude::*;
use crate::host::{Addr, Env, Error, env_after};

pub mod secure;

verus! {

/// The admin and the value the admin sets.
pub struct CurrentContractAdmin {
    admin: Option<Addr>,
    value: u32,
}

impl CurrentContractAdmin {
    pub closed spec fn admin(&self) -> Option<Addr> {
        self.admin
    }

    pub closed spec fn stored_value(&self) -> u32 {
        self.value
    }

    /// A contract with no admin and value zero.
    pub fn new() -> (c: Self)
        ensures
            c.admin() is None,
            c.stored_value() == 0,
    {
        CurrentContractAdmin { admin: None, value: 0 }
    }

    /// Sets the admin to `admin`, or, when none is given, to this contract's
    /// own address; once.
    pub fn initialize(&mut self, env: &Env, admin: Option<Addr>) -> (r: Result<(), Error>)
        ensures
            old(self).admin() is Some <==> r is Err,
            r is Err ==> r == Err::<(), Error>(Error::AlreadyInitialized),
            r is Err ==> *final(self) == *old(self),
            r is Ok ==> final(self).stored_value() == old(self).stored_value() && final(self).admin() == Some(
                match admin {
                    Some(a) => a,
                    None => env.current_contract,
                },
            ),
    {
        if self.admin.is_some() {
            return Err(Error::AlreadyInitialized);
        }
        let stored = match admin {
            Some(a) => a,
            None => env.current_contract,
        };
        self.admin = Some(stored);
        Ok(())
    }

    /// Sets the value to 1; the admin must authorize.
    pub fn admin_action(&mut self, env: &mut Env) -> (r: Result<(), Error>)
        ensures
            old(self).admin() is None <==> r is Err,
            r is Err ==> r == Err::<(), Error>(Error::NotInitialized),
            r is Err ==> *final(self) == *old(self),
            r is Ok ==> {
                &&& env_after(*old(env), *final(env), seq![old(self).admin()->0], seq![])
                &&& final(self).admin() == old(self).admin()
                &&& final(self).stored_value() == 1
            },
    {
        let admin = match self.admin {
            Some(a) => a,
            None => {
                return Err(Error::NotInitialized);
            },
        };
        env.require_auth(admin);
        self.value = 1;
        Ok(())
    }

    /// The admin; refused before initialization.
    pub fn get_admin(&self) -> (r: Result<Addr, Error>)
        ensures
            match self.admin() {
                Some(a) => r == Ok::<Addr, Error>(a),
                None => r == Err::<Addr, Error>(Error::NotInitialized),
            },
    {
        match self.admin {
            Some(a) => Ok(a),
            None => Err(Error::NotInitialized),
        }
    }

    /// The value set by the admin, zero if never.
    pub fn value(&self) -> (r: u32)
        ensures
            r == self.stored_value(),
    {
        self.value
    }

    /// Initializes with no admin given, making this contract its own admin.
    pub fn vulnerable_entry(&mut self, env: &Env, actor: Addr, amount: i128) -> (r: Result<(), Error>)
        ensures
            old(self).admin() is Some <==> r is Err,
            r is Err ==> r == Err::<(), Error>(Error::AlreadyInitialized),
            r is Err ==> *final(self) == *old(self),
            r is Ok ==> final(self).stored_value() == old(self).stored_value()
                && final(self).admin() == Some(env.current_contract),
    {
        self.initialize(env, None)
    }
}

} // verus!
