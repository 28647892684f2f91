//! Escrowed amounts per depositor.
use vstd::prelude::*;
use crate::host::{Addr, Env, env_after};
use crate::table::{Table, value_or};

verus! {

/// The amount held for each depositor.
pub struct SecureEscrow {
    escrows: Table<Addr, i128>,
}

impl SecureEscrow {
    pub closed spec fn escrows(&self) -> Map<Addr, i128> {
        self.escrows@
    }

    /// The amount held for `a`, zero if none.
    pub open spec fn held(&self, a: Addr) -> int {
        value_or(self.escrows(), a, 0i128) as int
    }

    /// An escrow holding nothing.
    pub fn new() -> (c: Self)
        ensures
            c.escrows() == Map::<Addr, i128>::empty(),
    {
        SecureEscrow { escrows: Table::new() }
    }

    /// Adds `amount` to what is held for `depositor`, who must authorize.
    pub fn deposit(&mut self, env: &mut Env, depositor: Addr, amount: i128)
        requires
            i128::MIN <= old(self).held(depositor) + amount <= i128::MAX,
        ensures
            env_after(*old(env), *final(env), seq![depositor], seq![]),
            final(self).escrows() == old(self).escrows().insert(depositor, (old(self).held(depositor) + amount) as i128),
    {
        env.require_auth(depositor);
        let current = self.escrows.amount(&depositor);
        self.escrows.set(depositor, current + amount);
    }

    /// Takes `amount` from what is held for `depositor`, who must authorize;
    /// the balance is not checked against the amount.
    pub fn withdraw(&mut self, env: &mut Env, depositor: Addr, amount: i128)
        requires
            i128::MIN <= old(self).held(depositor) - amount <= i128::MAX,
        ensures
            env_after(*old(env), *final(env), seq![depositor], seq![]),
            final(self).escrows() == old(self).escrows().insert(depositor, (old(self).held(depositor) - amount) as i128),
    {
        env.require_auth(depositor);
        let balance = self.escrows.amount(&depositor);
        self.escrows.set(depositor, balance - amount);
    }

    /// What is held for `depositor`, zero if none.
    pub fn balance(&self, depositor: Addr) -> (r: i128)
        ensures
            r == self.held(depositor),
    {
        self.escrows.amount(&depositor)
    }
}

} // verus!
