//! Admin-run escrows whose release checks the escrowed balance.
use vstd::prelude::*;
use crate::host::{Addr, Env, Error, env_after};
use super::EscrowBook;

verus! {

/// Escrows released only within their balance.
pub struct SecureEscrow {
    book: EscrowBook,
}

impl SecureEscrow {
    pub closed spec fn book(&self) -> EscrowBook {
        self.book
    }

    /// An escrow contract with no admin and no escrows.
    pub fn new() -> (c: Self)
        ensures
            c.book().admin is None,
            c.book().balances@ == Map::<u64, i128>::empty(),
            c.book().beneficiaries@ == Map::<u64, Addr>::empty(),
    {
        SecureEscrow { book: EscrowBook::new() }
    }

    /// Sets the admin, once.
    pub fn initialize(&mut self, admin: Addr) -> (r: Result<(), Error>)
        ensures
            old(self).book().admin is Some <==> r is Err,
            r is Err ==> r == Err::<(), Error>(Error::AlreadyInitialized) && *final(self) == *old(self),
            r is Ok ==> final(self).book().admin == Some(admin)
                && final(self).book().balances@ == old(self).book().balances@
                && final(self).book().beneficiaries@ == old(self).book().beneficiaries@,
    {
        self.book.initialize(admin)
    }

    /// Adds `amount` to escrow `escrow_id` and makes `beneficiary` its
    /// beneficiary; the admin must authorize.
    pub fn deposit(&mut self, env: &mut Env, escrow_id: u64, beneficiary: Addr, amount: i128) -> (r: Result<(), Error>)
        requires
            old(self).book().admin is Some ==> i128::MIN <= old(self).book().locked(escrow_id) + amount <= i128::MAX,
        ensures
            old(self).book().admin is None <==> r is Err,
            r is Err ==> r == Err::<(), Error>(Error::NotInitialized) && *final(self) == *old(self),
            r is Ok ==> {
                &&& env_after(*old(env), *final(env), seq![old(self).book().admin->0], seq![])
                &&& final(self).book().admin == old(self).book().admin
                &&& final(self).book().balances@ == old(self).book().balances@.insert(
                    escrow_id,
                    (old(self).book().locked(escrow_id) + amount) as i128,
                )
                &&& final(self).book().beneficiaries@ == old(self).book().beneficiaries@.insert(escrow_id, beneficiary)
            },
    {
        self.book.deposit(env, escrow_id, beneficiary, amount)
    }

    /// Takes `amount` out of escrow `escrow_id`; the admin must authorize.
    /// Refused before initialization, for an unknown escrow, or for more than
    /// the escrow holds.
    pub fn release(&mut self, env: &mut Env, escrow_id: u64, amount: i128) -> (r: Result<(), Error>)
        ensures
            r is Ok ==> final(self).book().locked(escrow_id) >= 0,
            r is Err ==> *final(self) == *old(self),
            old(self).book().admin is None ==> r == Err::<(), Error>(Error::NotInitialized),
            old(self).book().admin is Some && !old(self).book().beneficiaries@.contains_key(escrow_id)
                ==> r == Err::<(), Error>(Error::EscrowNotFound),
            old(self).book().admin is Some && old(self).book().beneficiaries@.contains_key(escrow_id)
                && !(0 <= old(self).book().locked(escrow_id) - amount <= i128::MAX)
                ==> r == Err::<(), Error>(Error::InsufficientEscrowBalance),
            old(self).book().admin is Some && old(self).book().beneficiaries@.contains_key(escrow_id)
                && 0 <= old(self).book().locked(escrow_id) - amount <= i128::MAX ==> {
                &&& r is Ok
                &&& env_after(*old(env), *final(env), seq![old(self).book().admin->0], seq![])
                &&& final(self).book().admin == old(self).book().admin
                &&& final(self).book().balances@ == old(self).book().balances@.insert(
                    escrow_id,
                    (old(self).book().locked(escrow_id) - amount) as i128,
                )
                &&& final(self).book().beneficiaries@ == old(self).book().beneficiaries@
            },
    {
        let admin = match self.book.admin {
            Some(a) => a,
            None => {
                return Err(Error::NotInitialized);
            },
        };
        env.require_auth(admin);
        let beneficiary = match self.book.beneficiaries.get(&escrow_id) {
            Some(b) => *b,
            None => {
                return Err(Error::EscrowNotFound);
            },
        };
        let escrow_balance = self.book.balances.amount(&escrow_id);
        if escrow_balance < amount {
            return Err(Error::InsufficientEscrowBalance);
        }
        let new_balance = match escrow_balance.checked_sub(amount) {
            Some(v) => v,
            None => {
                return Err(Error::InsufficientEscrowBalance);
            },
        };
        self.book.balances.set(escrow_id, new_balance);
        self.book.beneficiaries.set(escrow_id, beneficiary);
        assert(self.book.beneficiaries@ =~= old(self).book().beneficiaries@);
        Ok(())
    }

    /// The amount locked in escrow `escrow_id`, zero if none.
    pub fn escrow_balance(&self, escrow_id: u64) -> (r: i128)
        ensures
            r == self.book().locked(escrow_id),
    {
        self.book.balances.amount(&escrow_id)
    }
}

} // verus!
