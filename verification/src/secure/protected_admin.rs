//! Administration handed over by proposal and acceptance, with user profiles.
use vstd::prelude::*;
use crate::host::{Addr, Env, Error, env_after};
use crate::table::Table;

verus! {

/// The number of ledgers for which an admin proposal stays open.
pub const PROPOSAL_TTL_LEDGERS: u32 = 17_280;

/// What an account records about itself.
#[derive(Clone, Debug, PartialEq, Eq)]
pub struct Profile {
    pub display_name: String,
    pub kyc_level: u32,
}

impl Profile {
    /// An identical profile.
    pub fn copy(&self) -> (r: Profile)
        ensures
            r == *self,
    {
        Profile { display_name: self.display_name.clone(), kyc_level: self.kyc_level }
    }
}

/// The admin, a pending admin proposal with its expiry, and profiles.
pub struct ProtectedAdmin {
    admin: Option<Addr>,
    pending_admin: Option<Addr>,
    pending_expiry: Option<u32>,
    profiles: Table<Addr, Profile>,
}

impl ProtectedAdmin {
    pub closed spec fn admin(&self) -> Option<Addr> {
        self.admin
    }

    pub closed spec fn pending_admin(&self) -> Option<Addr> {
        self.pending_admin
    }

    pub closed spec fn pending_expiry(&self) -> Option<u32> {
        self.pending_expiry
    }

    pub closed spec fn profiles(&self) -> Map<Addr, Profile> {
        self.profiles@
    }

    /// A contract with no admin, no proposal and no profiles.
    pub fn new() -> (c: Self)
        ensures
            c.admin() is None,
            c.pending_admin() is None,
            c.pending_expiry() is None,
            c.profiles() == Map::<Addr, Profile>::empty(),
    {
        ProtectedAdmin { admin: None, pending_admin: None, pending_expiry: None, profiles: Table::new() }
    }

    /// Sets the admin, once.
    pub fn initialize(&mut self, admin: Addr) -> (r: Result<(), Error>)
        ensures
            old(self).admin() is Some <==> r is Err,
            r is Err ==> r == Err::<(), Error>(Error::AlreadyInitialized),
            r is Err ==> *final(self) == *old(self),
            r is Ok ==> {
                &&& final(self).admin() == Some(admin)
                &&& final(self).pending_admin() == old(self).pending_admin()
                &&& final(self).pending_expiry() == old(self).pending_expiry()
                &&& final(self).profiles() == old(self).profiles()
            },
    {
        if self.admin.is_some() {
            return Err(Error::AlreadyInitialized);
        }
        self.admin = Some(admin);
        Ok(())
    }

    /// Proposes `new_admin` as the next admin, open for
    /// `PROPOSAL_TTL_LEDGERS` ledgers; the current admin must authorize.
    pub fn propose_admin(&mut self, env: &mut Env, new_admin: Addr) -> (r: Result<(), Error>)
        requires
            old(env).sequence + PROPOSAL_TTL_LEDGERS <= u32::MAX,
        ensures
            old(self).admin() is None <==> r is Err,
            r is Err ==> r == Err::<(), Error>(Error::NotInitialized),
            r is Err ==> *final(self) == *old(self),
            r is Ok ==> {
                &&& env_after(*old(env), *final(env), seq![old(self).admin()->0], seq![])
                &&& final(self).admin() == old(self).admin()
                &&& final(self).pending_admin() == Some(new_admin)
                &&& final(self).pending_expiry() == Some((old(env).sequence + PROPOSAL_TTL_LEDGERS) as u32)
                &&& final(self).profiles() == old(self).profiles()
            },
    {
        let current_admin = match self.admin {
            Some(a) => a,
            None => {
                return Err(Error::NotInitialized);
            },
        };
        env.require_auth(current_admin);
        let expiry = env.sequence + PROPOSAL_TTL_LEDGERS;
        self.pending_admin = Some(new_admin);
        self.pending_expiry = Some(expiry);
        Ok(())
    }

    /// Makes the proposed admin the admin and closes the proposal; the
    /// proposed admin must authorize. Refused when no proposal is open or
    /// after it expired.
    pub fn accept_admin(&mut self, env: &mut Env) -> (r: Result<(), Error>)
        ensures
            r is Err ==> *final(self) == *old(self),
            old(self).pending_admin() is None || old(self).pending_expiry() is None
                ==> r == Err::<(), Error>(Error::NoPendingProposal),
            old(self).pending_admin() is Some && old(self).pending_expiry() is Some
                && old(env).sequence > old(self).pending_expiry()->0 ==> r == Err::<(), Error>(Error::ProposalExpired),
            old(self).pending_admin() is Some && old(self).pending_expiry() is Some
                && old(env).sequence <= old(self).pending_expiry()->0 ==> {
                &&& r is Ok
                &&& env_after(*old(env), *final(env), seq![old(self).pending_admin()->0], seq![])
                &&& final(self).admin() == old(self).pending_admin()
                &&& final(self).pending_admin() is None
                &&& final(self).pending_expiry() is None
                &&& final(self).profiles() == old(self).profiles()
            },
    {
        let pending = match self.pending_admin {
            Some(a) => a,
            None => {
                return Err(Error::NoPendingProposal);
            },
        };
        let expiry = match self.pending_expiry {
            Some(e) => e,
            None => {
                return Err(Error::NoPendingProposal);
            },
        };
        if env.sequence > expiry {
            return Err(Error::ProposalExpired);
        }
        env.require_auth(pending);
        self.admin = Some(pending);
        self.pending_admin = None;
        self.pending_expiry = None;
        Ok(())
    }

    /// Replaces the admin directly; the current admin must authorize.
    pub fn set_admin(&mut self, env: &mut Env, new_admin: Addr) -> (r: Result<(), Error>)
        ensures
            old(self).admin() is None <==> r is Err,
            r is Err ==> r == Err::<(), Error>(Error::NotInitialized),
            r is Err ==> *final(self) == *old(self),
            r is Ok ==> {
                &&& env_after(*old(env), *final(env), seq![old(self).admin()->0], seq![])
                &&& final(self).admin() == Some(new_admin)
                &&& final(self).pending_admin() == old(self).pending_admin()
                &&& final(self).pending_expiry() == old(self).pending_expiry()
                &&& final(self).profiles() == old(self).profiles()
            },
    {
        let current_admin = match self.admin {
            Some(a) => a,
            None => {
                return Err(Error::NotInitialized);
            },
        };
        env.require_auth(current_admin);
        self.admin = Some(new_admin);
        Ok(())
    }

    /// Approves replacing the contract's code with the code of hash
    /// `new_wasm_hash`, which it returns for the host to install; the admin
    /// must authorize.
    pub fn upgrade(&self, env: &mut Env, new_wasm_hash: [u8; 32]) -> (r: Result<[u8; 32], Error>)
        ensures
            self.admin() is None <==> r is Err,
            r is Err ==> r == Err::<[u8; 32], Error>(Error::NotInitialized),
            r is Ok ==> r == Ok::<[u8; 32], Error>(new_wasm_hash)
                && env_after(*old(env), *final(env), seq![self.admin()->0], seq![]),
    {
        let admin = match self.admin {
            Some(a) => a,
            None => {
                return Err(Error::NotInitialized);
            },
        };
        env.require_auth(admin);
        Ok(new_wasm_hash)
    }

    /// Records the profile of `account`, who must authorize.
    pub fn set_profile(&mut self, env: &mut Env, account: Addr, display_name: String, kyc_level: u32)
        ensures
            env_after(*old(env), *final(env), seq![account], seq![]),
            final(self).profiles() == old(self).profiles().insert(account, Profile { display_name, kyc_level }),
            final(self).admin() == old(self).admin(),
            final(self).pending_admin() == old(self).pending_admin(),
            final(self).pending_expiry() == old(self).pending_expiry(),
    {
        env.require_auth(account);
        let profile = Profile { display_name, kyc_level };
        self.profiles.set(account, profile);
    }

    /// The profile of `account`, if any.
    pub fn get_profile(&self, account: Addr) -> (r: Option<Profile>)
        ensures
            r == (if self.profiles().contains_key(account) {
                Some(self.profiles()[account])
            } else {
                None::<Profile>
            }),
    {
        match self.profiles.get(&account) {
            Some(p) => Some(p.copy()),
            None => None,
        }
    }

    /// Deletes the profile of `account`, who must authorize.
    pub fn delete_profile(&mut self, env: &mut Env, account: Addr)
        ensures
            env_after(*old(env), *final(env), seq![account], seq![]),
            final(self).profiles() == old(self).profiles().remove(account),
            final(self).admin() == old(self).admin(),
            final(self).pending_admin() == old(self).pending_admin(),
            final(self).pending_expiry() == old(self).pending_expiry(),
    {
        env.require_auth(account);
        self.profiles.remove(account);
    }

    /// The admin; refused before initialization.
    pub fn get_admin(&self) -> (r: Result<Addr, Error>)
        ensures
            match self.admin() {
                Some(a) => r == Ok::<Addr, Error>(a),
                None => r == Err::<Addr, Error>(Error::NotInitialized),
            },
    {
        match self.admin {
            Some(a) => Ok(a),
            None => Err(Error::NotInitialized),
        }
    }
}

} // verus!
