//! A vault whose deposits unlock at a chosen ledger sequence.
use vstd::prelude::*;
use crate::host::{Addr, Env, Error, env_after};
use crate::table::{Table, value_or};

verus! {

/// Balances per user and the ledger at which each unlocks.
pub struct SequenceLockedVault {
    balances: Table<Addr, i128>,
    unlocks: Table<Addr, u32>,
}

impl SequenceLockedVault {
    pub closed spec fn balances(&self) -> Map<Addr, i128> {
        self.balances@
    }

    pub closed spec fn unlocks(&self) -> Map<Addr, u32> {
        self.unlocks@
    }

    /// The balance of `a`, zero if none.
    pub open spec fn bal(&self, a: Addr) -> int {
        value_or(self.balances(), a, 0i128) as int
    }

    /// An empty vault.
    pub fn new() -> (c: Self)
        ensures
            c.balances() == Map::<Addr, i128>::empty(),
            c.unlocks() == Map::<Addr, u32>::empty(),
    {
        SequenceLockedVault { balances: Table::new(), unlocks: Table::new() }
    }

    /// Adds `amount` to the balance of `user`, who must authorize, and sets
    /// its unlock ledger to `unlock_sequence`.
    pub fn deposit(&mut self, env: &mut Env, user: Addr, amount: i128, unlock_sequence: u32)
        requires
            i128::MIN <= old(self).bal(user) + amount <= i128::MAX,
        ensures
            env_after(*old(env), *final(env), seq![user], seq![]),
            final(self).balances() == old(self).balances().insert(user, (old(self).bal(user) + amount) as i128),
            final(self).unlocks() == old(self).unlocks().insert(user, unlock_sequence),
    {
        env.require_auth(user);
        let current = self.balances.amount(&user);
        self.balances.set(user, current + amount);
        self.unlocks.set(user, unlock_sequence);
    }

    /// Empties the balance of `user`, who must authorize, and clears its
    /// unlock ledger. Refused when no unlock ledger is set or before it.
    pub fn withdraw(&mut self, env: &mut Env, user: Addr) -> (r: Result<(), Error>)
        ensures
            r is Err ==> *final(self) == *old(self),
            !old(self).unlocks().contains_key(user) ==> r == Err::<(), Error>(Error::UnlockNotSet),
            old(self).unlocks().contains_key(user) && old(env).sequence < old(self).unlocks()[user]
                ==> r == Err::<(), Error>(Error::StillLocked),
            old(self).unlocks().contains_key(user) && old(env).sequence >= old(self).unlocks()[user] ==> {
                &&& r is Ok
                &&& env_after(*old(env), *final(env), seq![user], seq![])
                &&& final(self).balances() == old(self).balances().insert(user, 0)
                &&& final(self).unlocks() == old(self).unlocks().remove(user)
            },
    {
        env.require_auth(user);
        let unlock_sequence = match self.unlocks.get(&user) {
            Some(s) => *s,
            None => {
                return Err(Error::UnlockNotSet);
            },
        };
        if env.sequence < unlock_sequence {
            return Err(Error::StillLocked);
        }
        self.balances.set(user, 0);
        self.unlocks.remove(user);
        Ok(())
    }

    /// The balance of `user`, zero if none.
    pub fn balance(&self, user: Addr) -> (r: i128)
        ensures
            r == self.bal(user),
    {
        self.balances.amount(&user)
    }

    /// The unlock ledger of `user`, if set.
    pub fn unlock_sequence(&self, user: Addr) -> (r: Option<u32>)
        ensures
            r == (if self.unlocks().contains_key(user) { Some(self.unlocks()[user]) } else { None::<u32> }),
    {
        match self.unlocks.get(&user) {
            Some(s) => Some(*s),
            None => None,
        }
    }

    /// The current ledger sequence.
    pub fn current_sequence(env: &Env) -> (r: u32)
        ensures
            r == env.sequence,
    {
        env.sequence
    }
}

} // verus!
