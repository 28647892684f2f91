//! Deposits credited after a token transfer whose failure may be ignored.
use vstd::prelude::*;
use crate::host::{Addr, Env, env_after};
use crate::table::{Table, value_or};

pub mod secure;

verus! {

/// Whether the token transfer fails, and the credit of each user.
pub struct CreditLedger {
    pub transfer_fails: bool,
    pub credits: Table<Addr, i128>,
}

impl CreditLedger {
    /// The credit of `a`, zero if none.
    pub open spec fn credit(&self, a: Addr) -> int {
        value_or(self.credits@, a, 0i128) as int
    }

    /// A ledger with no credits, whose transfers succeed.
    pub fn new() -> (l: Self)
        ensures
            !l.transfer_fails,
            l.credits@ == Map::<Addr, i128>::empty(),
    {
        CreditLedger { transfer_fails: false, credits: Table::new() }
    }

    /// The outcome of the token transfer.
    pub fn do_token_transfer(&self) -> (r: Result<(), ()>)
        ensures
            r is Err <==> self.transfer_fails,
    {
        if self.transfer_fails {
            Err(())
        } else {
            Ok(())
        }
    }

    /// Adds `amount` to the credit of `user`.
    pub fn credit_user(&mut self, user: Addr, amount: i128)
        requires
            i128::MIN <= old(self).credit(user) + amount <= i128::MAX,
        ensures
            final(self).transfer_fails == old(self).transfer_fails,
            final(self).credits@ == old(self).credits@.insert(user, (old(self).credit(user) + amount) as i128),
    {
        let bal = self.credits.amount(&user);
        self.credits.set(user, bal + amount);
    }
}

/// A lending contract that credits a deposit whether or not its token
/// transfer succeeded.
pub struct VulnerableLending {
    ledger: CreditLedger,
}

impl VulnerableLending {
    pub closed spec fn fails(&self) -> bool {
        self.ledger.transfer_fails
    }

    pub closed spec fn credits(&self) -> Map<Addr, i128> {
        self.ledger.credits@
    }

    /// The credit of `a`, zero if none.
    pub open spec fn credit(&self, a: Addr) -> int {
        value_or(self.credits(), a, 0i128) as int
    }

    /// A contract with no credits, whose transfers succeed.
    pub fn new() -> (c: Self)
        ensures
            !c.fails(),
            c.credits() == Map::<Addr, i128>::empty(),
    {
        VulnerableLending { ledger: CreditLedger::new() }
    }

    /// Makes transfers succeed.
    pub fn initialize(&mut self)
        ensures
            !final(self).fails(),
            final(self).credits() == old(self).credits(),
    {
        self.ledger.transfer_fails = false;
    }

    /// Sets whether transfers fail.
    pub fn set_transfer_fails(&mut self, fails: bool)
        ensures
            final(self).fails() == fails,
            final(self).credits() == old(self).credits(),
    {
        self.ledger.transfer_fails = fails;
    }

    /// Credits `amount` to `user`, who must authorize, after a token
    /// transfer whose failure is ignored.
    pub fn deposit(&mut self, env: &mut Env, user: Addr, amount: i128)
        requires
            i128::MIN <= old(self).credit(user) + amount <= i128::MAX,
        ensures
            env_after(*old(env), *final(env), seq![user], seq![]),
            final(self).fails() == old(self).fails(),
            final(self).credits() == old(self).credits().insert(user, (old(self).credit(user) + amount) as i128),
    {
        env.require_auth(user);
        let _outcome = self.ledger.do_token_transfer();
        self.ledger.credit_user(user, amount);
    }

    /// The credit of `user`, zero if none.
    pub fn credit_balance(&self, user: Addr) -> (r: i128)
        ensures
            r == self.credit(user),
    {
        self.ledger.credits.amount(&user)
    }
}

} // verus!
