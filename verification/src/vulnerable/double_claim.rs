//! Staking rewards that can be claimed again and again for the same period.
use vstd::prelude::*;
use crate::host::{Addr, Env, env_after};
use crate::table::{Table, value_or};

verus! {

/// The reward rate, and per staker the stake and the ledger it was made at.
pub struct DoubleClaim {
    rate: u64,
    stakes: Table<Addr, u64>,
    staked_at: Table<Addr, u32>,
}

impl DoubleClaim {
    pub closed spec fn rate(&self) -> u64 {
        self.rate
    }

    pub closed spec fn stakes(&self) -> Map<Addr, u64> {
        self.stakes@
    }

    pub closed spec fn staked_ats(&self) -> Map<Addr, u32> {
        self.staked_at@
    }

    /// A contract with rate zero and no stakes.
    pub fn new() -> (c: Self)
        ensures
            c.rate() == 0,
            c.stakes() == Map::<Addr, u64>::empty(),
            c.staked_ats() == Map::<Addr, u32>::empty(),
    {
        DoubleClaim { rate: 0, stakes: Table::new(), staked_at: Table::new() }
    }

    /// Sets the reward rate.
    pub fn initialize(&mut self, reward_rate: u64)
        ensures
            final(self).rate() == reward_rate,
            final(self).stakes() == old(self).stakes(),
            final(self).staked_ats() == old(self).staked_ats(),
    {
        self.rate = reward_rate;
    }

    /// Replaces the stake of `staker`, who must authorize, with `amount`,
    /// made at the current ledger.
    pub fn stake(&mut self, env: &mut Env, staker: Addr, amount: u64)
        ensures
            env_after(*old(env), *final(env), seq![staker], seq![]),
            final(self).rate() == old(self).rate(),
            final(self).stakes() == old(self).stakes().insert(staker, amount),
            final(self).staked_ats() == old(self).staked_ats().insert(staker, old(env).sequence),
    {
        env.require_auth(staker);
        self.stakes.set(staker, amount);
        self.set_staked_at(staker, env.sequence);
    }

    /// Records `seq` as the ledger at which `staker` staked.
    pub fn set_staked_at(&mut self, staker: Addr, seq: u32)
        ensures
            final(self).rate() == old(self).rate(),
            final(self).stakes() == old(self).stakes(),
            final(self).staked_ats() == old(self).staked_ats().insert(staker, seq),
    {
        self.staked_at.set(staker, seq);
    }

    /// The reward of `staker`, who must authorize: stake times rate times the
    /// ledgers since staking, or zero where that overflows a `u64`. Nothing
    /// records the claim.
    pub fn claim_rewards(&self, env: &mut Env, staker: Addr) -> (r: u64)
        requires
            old(env).sequence >= value_or(self.staked_ats(), staker, 0u32),
        ensures
            env_after(*old(env), *final(env), seq![staker], seq![]),
            ({
                let s = value_or(self.stakes(), staker, 0u64);
                let e = old(env).sequence - value_or(self.staked_ats(), staker, 0u32);
                r == if s * self.rate() <= u64::MAX && s * self.rate() * e <= u64::MAX {
                    s * self.rate() * e
                } else {
                    0
                }
            }),
    {
        env.require_auth(staker);
        let staked_at = match self.staked_at.get(&staker) {
            Some(v) => *v,
            None => 0,
        };
        let elapsed = env.sequence - staked_at;
        let stake = match self.stakes.get(&staker) {
            Some(v) => *v,
            None => 0,
        };
        match stake.checked_mul(self.rate) {
            Some(v) => match v.checked_mul(elapsed as u64) {
                Some(w) => w,
                None => 0,
            },
            None => 0,
        }
    }
}

} // verus!
