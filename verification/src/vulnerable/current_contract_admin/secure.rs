//! An admin that must be given explicitly and is handed over by nomination
//! and acceptance.
use vstd::prelude::*;
use crate::host::{Addr, Env, Error, env_after};

verus! {

/// The admin, a nominee, and the value the admin sets.
pub struct SecureCurrentContractAdmin {
    admin: Option<Addr>,
    pending_admin: Option<Addr>,
    value: u32,
}

impl SecureCurrentContractAdmin {
    pub closed spec fn admin(&self) -> Option<Addr> {
        self.admin
    }

    pub closed spec fn pending_admin(&self) -> Option<Addr> {
        self.pending_admin
    }

    pub closed spec fn stored_value(&self) -> u32 {
        self.value
    }

    /// A contract with no admin, no nominee and value zero.
    pub fn new() -> (c: Self)
        ensures
            c.admin() is None,
            c.pending_admin() is None,
            c.stored_value() == 0,
    {
        SecureCurrentContractAdmin { admin: None, pending_admin: None, value: 0 }
    }

    /// Sets the admin, once.
    pub fn initialize(&mut self, admin: Addr) -> (r: Result<(), Error>)
        ensures
            old(self).admin() is Some <==> r is Err,
            r is Err ==> r == Err::<(), Error>(Error::AlreadyInitialized),
            r is Err ==> *final(self) == *old(self),
            r is Ok ==> final(self).admin() == Some(admin) && final(self).pending_admin() == old(self).pending_admin()
                && final(self).stored_value() == old(self).stored_value(),
    {
        if self.admin.is_some() {
            return Err(Error::AlreadyInitialized);
        }
        self.admin = Some(admin);
        Ok(())
    }

    /// Sets the admin, once; refused when no admin is given.
    pub fn initialize_required(&mut self, admin: Option<Addr>) -> (r: Result<(), Error>)
        ensures
            admin is None ==> r == Err::<(), Error>(Error::AdminRequired),
            admin is Some && old(self).admin() is Some ==> r == Err::<(), Error>(Error::AlreadyInitialized),
            r is Err ==> *final(self) == *old(self),
            admin is Some && old(self).admin() is None ==> r is Ok && final(self).admin() == admin
                && final(self).pending_admin() == old(self).pending_admin()
                && final(self).stored_value() == old(self).stored_value(),
    {
        let admin = match admin {
            Some(a) => a,
            None => {
                return Err(Error::AdminRequired);
            },
        };
        self.initialize(admin)
    }

    /// Nominates `nominee` as the next admin; the admin must authorize.
    pub fn nominate_admin(&mut self, env: &mut Env, nominee: Addr) -> (r: Result<(), Error>)
        ensures
            old(self).admin() is None <==> r is Err,
            r is Err ==> r == Err::<(), Error>(Error::NotInitialized),
            r is Err ==> *final(self) == *old(self),
            r is Ok ==> {
                &&& env_after(*old(env), *final(env), seq![old(self).admin()->0], seq![])
                &&& final(self).admin() == old(self).admin()
                &&& final(self).pending_admin() == Some(nominee)
                &&& final(self).stored_value() == old(self).stored_value()
            },
    {
        let admin = match self.admin {
            Some(a) => a,
            None => {
                return Err(Error::NotInitialized);
            },
        };
        env.require_auth(admin);
        self.pending_admin = Some(nominee);
        Ok(())
    }

    /// Makes the nominee the admin; the nominee must authorize. The
    /// nomination stays recorded. Refused without a nominee.
    pub fn accept_admin(&mut self, env: &mut Env) -> (r: Result<(), Error>)
        ensures
            old(self).pending_admin() is None <==> r is Err,
            r is Err ==> r == Err::<(), Error>(Error::NoPendingAdmin),
            r is Err ==> *final(self) == *old(self),
            r is Ok ==> {
                &&& env_after(*old(env), *final(env), seq![old(self).pending_admin()->0], seq![])
                &&& final(self).admin() == old(self).pending_admin()
                &&& final(self).pending_admin() == old(self).pending_admin()
                &&& final(self).stored_value() == old(self).stored_value()
            },
    {
        let pending = match self.pending_admin {
            Some(p) => p,
            None => {
                return Err(Error::NoPendingAdmin);
            },
        };
        env.require_auth(pending);
        self.admin = Some(pending);
        Ok(())
    }

    /// Sets the value to 1; the admin must authorize.
    pub fn admin_action(&mut self, env: &mut Env) -> (r: Result<(), Error>)
        ensures
            old(self).admin() is None <==> r is Err,
            r is Err ==> r == Err::<(), Error>(Error::NotInitialized),
            r is Err ==> *final(self) == *old(self),
            r is Ok ==> {
                &&& env_after(*old(env), *final(env), seq![old(self).admin()->0], seq![])
                &&& final(self).admin() == old(self).admin()
                &&& final(self).pending_admin() == old(self).pending_admin()
                &&& final(self).stored_value() == 1
            },
    {
        let admin = match self.admin {
            Some(a) => a,
            None => {
                return Err(Error::NotInitialized);
            },
        };
        env.require_auth(admin);
        self.value = 1;
        Ok(())
    }

    /// The value set by the admin, zero if never.
    pub fn value(&self) -> (r: u32)
        ensures
            r == self.stored_value(),
    {
        self.value
    }
}

} // verus!
