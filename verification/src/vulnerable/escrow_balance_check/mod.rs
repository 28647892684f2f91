//! Admin-run escrows whose release does not check the escrowed balance.
use vstd::prelude::*;
use crate::host::{Addr, Env, Error, env_after};
use crate::table::{Table, value_or};

pub mod secure;

verus! {

/// The admin, and per escrow id the locked amount and the beneficiary.
pub struct EscrowBook {
    pub admin: Option<Addr>,
    pub balances: Table<u64, i128>,
    pub beneficiaries: Table<u64, Addr>,
}

impl EscrowBook {
    /// The amount locked in escrow `id`, zero if none.
    pub open spec fn locked(&self, id: u64) -> int {
        value_or(self.balances@, id, 0i128) as int
    }

    /// A book with no admin and no escrows.
    pub fn new() -> (b: Self)
        ensures
            b.admin is None,
            b.balances@ == Map::<u64, i128>::empty(),
            b.beneficiaries@ == Map::<u64, Addr>::empty(),
    {
        EscrowBook { admin: None, balances: Table::new(), beneficiaries: Table::new() }
    }

    /// Sets the admin, once.
    pub fn initialize(&mut self, admin: Addr) -> (r: Result<(), Error>)
        ensures
            old(self).admin is Some <==> r is Err,
            r is Err ==> r == Err::<(), Error>(Error::AlreadyInitialized) && *final(self) == *old(self),
            r is Ok ==> final(self).admin == Some(admin) && final(self).balances@ == old(self).balances@
                && final(self).beneficiaries@ == old(self).beneficiaries@,
    {
        if self.admin.is_some() {
            return Err(Error::AlreadyInitialized);
        }
        self.admin = Some(admin);
        Ok(())
    }

    /// Adds `amount` to escrow `escrow_id` and makes `beneficiary` its
    /// beneficiary; the admin must authorize.
    pub fn deposit(&mut self, env: &mut Env, escrow_id: u64, beneficiary: Addr, amount: i128) -> (r: Result<(), Error>)
        requires
            old(self).admin is Some ==> i128::MIN <= old(self).locked(escrow_id) + amount <= i128::MAX,
        ensures
            old(self).admin is None <==> r is Err,
            r is Err ==> r == Err::<(), Error>(Error::NotInitialized) && *final(self) == *old(self),
            r is Ok ==> {
                &&& env_after(*old(env), *final(env), seq![old(self).admin->0], seq![])
                &&& final(self).admin == old(self).admin
                &&& final(self).balances@ == old(self).balances@.insert(
                    escrow_id,
                    (old(self).locked(escrow_id) + amount) as i128,
                )
                &&& final(self).beneficiaries@ == old(self).beneficiaries@.insert(escrow_id, beneficiary)
            },
    {
        let admin = match self.admin {
            Some(a) => a,
            None => {
                return Err(Error::NotInitialized);
            },
        };
        env.require_auth(admin);
        let current = self.balances.amount(&escrow_id);
        self.balances.set(escrow_id, current + amount);
        self.beneficiaries.set(escrow_id, beneficiary);
        Ok(())
    }
}

/// Escrows released without a balance check.
pub struct VulnerableEscrow {
    book: EscrowBook,
}

impl VulnerableEscrow {
    pub closed spec fn book(&self) -> EscrowBook {
        self.book
    }

    /// An escrow contract with no admin and no escrows.
    pub fn new() -> (c: Self)
        ensures
            c.book().admin is None,
            c.book().balances@ == Map::<u64, i128>::empty(),
            c.book().beneficiaries@ == Map::<u64, Addr>::empty(),
    {
        VulnerableEscrow { book: EscrowBook::new() }
    }

    /// Sets the admin, once.
    pub fn initialize(&mut self, admin: Addr) -> (r: Result<(), Error>)
        ensures
            old(self).book().admin is Some <==> r is Err,
            r is Err ==> r == Err::<(), Error>(Error::AlreadyInitialized) && *final(self) == *old(self),
            r is Ok ==> final(self).book().admin == Some(admin)
                && final(self).book().balances@ == old(self).book().balances@
                && final(self).book().beneficiaries@ == old(self).book().beneficiaries@,
    {
        self.book.initialize(admin)
    }

    /// Adds `amount` to escrow `escrow_id` and makes `beneficiary` its
    /// beneficiary; the admin must authorize.
    pub fn deposit(&mut self, env: &mut Env, escrow_id: u64, beneficiary: Addr, amount: i128) -> (r: Result<(), Error>)
        requires
            old(self).book().admin is Some ==> i128::MIN <= old(self).book().locked(escrow_id) + amount <= i128::MAX,
        ensures
            old(self).book().admin is None <==> r is Err,
            r is Err ==> r == Err::<(), Error>(Error::NotInitialized) && *final(self) == *old(self),
            r is Ok ==> {
                &&& env_after(*old(env), *final(env), seq![old(self).book().admin->0], seq![])
                &&& final(self).book().admin == old(self).book().admin
                &&& final(self).book().balances@ == old(self).book().balances@.insert(
                    escrow_id,
                    (old(self).book().locked(escrow_id) + amount) as i128,
                )
                &&& final(self).book().beneficiaries@ == old(self).book().beneficiaries@.insert(escrow_id, beneficiary)
            },
    {
        self.book.deposit(env, escrow_id, beneficiary, amount)
    }

    /// Takes `amount` out of escrow `escrow_id`, whatever it holds; the admin
    /// must authorize. Refused before initialization or for an unknown
    /// escrow.
    pub fn release(&mut self, env: &mut Env, escrow_id: u64, amount: i128) -> (r: Result<(), Error>)
        requires
            i128::MIN <= old(self).book().locked(escrow_id) - amount <= i128::MAX,
        ensures
            r is Err ==> *final(self) == *old(self),
            old(self).book().admin is None ==> r == Err::<(), Error>(Error::NotInitialized),
            old(self).book().admin is Some && !old(self).book().beneficiaries@.contains_key(escrow_id)
                ==> r == Err::<(), Error>(Error::EscrowNotFound),
            old(self).book().admin is Some && old(self).book().beneficiaries@.contains_key(escrow_id) ==> {
                &&& r is Ok
                &&& env_after(*old(env), *final(env), seq![old(self).book().admin->0], seq![])
                &&& final(self).book().admin == old(self).book().admin
                &&& final(self).book().balances@ == old(self).book().balances@.insert(
                    escrow_id,
                    (old(self).book().locked(escrow_id) - amount) as i128,
                )
                &&& final(self).book().beneficiaries@ == old(self).book().beneficiaries@
            },
    {
        let admin = match self.book.admin {
            Some(a) => a,
            None => {
                return Err(Error::NotInitialized);
            },
        };
        env.require_auth(admin);
        let beneficiary = match self.book.beneficiaries.get(&escrow_id) {
            Some(b) => *b,
            None => {
                return Err(Error::EscrowNotFound);
            },
        };
        let escrow_balance = self.book.balances.amount(&escrow_id);
        self.book.balances.set(escrow_id, escrow_balance - amount);
        self.book.beneficiaries.set(escrow_id, beneficiary);
        assert(self.book.beneficiaries@ =~= old(self).book().beneficiaries@);
        Ok(())
    }

    /// The amount locked in escrow `escrow_id`, zero if none.
    pub fn escrow_balance(&self, escrow_id: u64) -> (r: i128)
        ensures
            r == self.book().locked(escrow_id),
    {
        self.book.balances.amount(&escrow_id)
    }
}

} // verus!
