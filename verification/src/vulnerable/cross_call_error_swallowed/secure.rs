//! Deposits credited only after their token transfer succeeded.
use vstd::prelude::*;
use crate::host::{Addr, Env, Error, env_after};
use crate::table::value_or;
use super::CreditLedger;

verus! {

/// A lending contract whose deposits fail with their token transfer.
pub struct SecureLending {
    ledger: CreditLedger,
}

impl SecureLending {
    pub closed spec fn fails(&self) -> bool {
        self.ledger.transfer_fails
    }

    pub closed spec fn credits(&self) -> Map<Addr, i128> {
        self.ledger.credits@
    }

    /// The credit of `a`, zero if none.
    pub open spec fn credit(&self, a: Addr) -> int {
        value_or(self.credits(), a, 0i128) as int
    }

    /// A contract with no credits, whose transfers succeed.
    pub fn new() -> (c: Self)
        ensures
            !c.fails(),
            c.credits() == Map::<Addr, i128>::empty(),
    {
        SecureLending { ledger: CreditLedger::new() }
    }

    /// Makes transfers succeed.
    pub fn initialize(&mut self)
        ensures
            !final(self).fails(),
            final(self).credits() == old(self).credits(),
    {
        self.ledger.transfer_fails = false;
    }

    /// Sets whether transfers fail.
    pub fn set_transfer_fails(&mut self, fails: bool)
        ensures
            final(self).fails() == fails,
            final(self).credits() == old(self).credits(),
    {
        self.ledger.transfer_fails = fails;
    }

    /// Credits `amount` to `user`, who must authorize, once the token
    /// transfer has succeeded; refused when it fails.
    pub fn deposit(&mut self, env: &mut Env, user: Addr, amount: i128) -> (r: Result<(), Error>)
        requires
            i128::MIN <= old(self).credit(user) + amount <= i128::MAX,
        ensures
            old(self).fails() <==> r is Err,
            r is Err ==> r == Err::<(), Error>(Error::TransferFailed),
            r is Err ==> *final(self) == *old(self),
            r is Ok ==> {
                &&& env_after(*old(env), *final(env), seq![user], seq![])
                &&& final(self).fails() == old(self).fails()
                &&& final(self).credits() == old(self).credits().insert(user, (old(self).credit(user) + amount) as i128)
            },
    {
        env.require_auth(user);
        if self.ledger.do_token_transfer().is_err() {
            return Err(Error::TransferFailed);
        }
        self.ledger.credit_user(user, amount);
        Ok(())
    }

    /// The credit of `user`, zero if none.
    pub fn credit_balance(&self, user: Addr) -> (r: i128)
        ensures
            r == self.credit(user),
    {
        self.ledger.credits.amount(&user)
    }
}

} // verus!
