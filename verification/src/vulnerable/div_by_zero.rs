//! Staking with reward distribution by division over the total stake.
use vstd::prelude::*;
use crate::host::{Addr, Env, env_after};
use crate::table::{Table, value_or};

verus! {

/// Records stakes and divides rewards by the total staked.
pub struct StakingContract {
    stakes: Table<Addr, u64>,
    total_staked: u64,
}

impl StakingContract {
    /// The stake recorded for each staker.
    pub closed spec fn stakes(&self) -> Map<Addr, u64> {
        self.stakes@
    }

    /// The total recorded across all stakers.
    pub closed spec fn total(&self) -> u64 {
        self.total_staked
    }

    /// A contract with nothing staked.
    pub fn new() -> (c: Self)
        ensures
            c.stakes() == Map::<Addr, u64>::empty(),
            c.total() == 0,
    {
        StakingContract { stakes: Table::new(), total_staked: 0 }
    }

    /// Adds `amount` to the stake of `staker` and to the total; `staker` must
    /// authorize.
    pub fn stake(&mut self, env: &mut Env, staker: Addr, amount: u64)
        requires
            value_or(old(self).stakes(), staker, 0u64) + amount <= u64::MAX,
            old(self).total() + amount <= u64::MAX,
        ensures
            env_after(*old(env), *final(env), seq![staker], seq![]),
            final(self).stakes() == old(self).stakes().insert(
                staker,
                (value_or(old(self).stakes(), staker, 0u64) + amount) as u64,
            ),
            final(self).total() == old(self).total() + amount,
    {
        env.require_auth(staker);
        let prev = match self.stakes.get(&staker) {
            Some(v) => *v,
            None => 0,
        };
        let total = self.total_staked;
        self.stakes.set(staker, prev + amount);
        self.total_staked = total + amount;
    }

    /// The reward per staked unit: `total_reward` divided by the total
    /// staked. The division is undefined on an empty pool.
    pub fn distribute_rewards(&self, total_reward: u64) -> (r: u64)
        requires
            self.total() > 0,
        ensures
            r == total_reward / self.total(),
    {
        total_reward / self.total_staked
    }

    /// The stake of `staker`, zero if none.
    pub fn staked_amount(&self, staker: Addr) -> (r: u64)
        ensures
            r == value_or(self.stakes(), staker, 0u64),
    {
        match self.stakes.get(&staker) {
            Some(v) => *v,
            None => 0,
        }
    }

    /// The total staked across all stakers.
    pub fn total_staked(&self) -> (r: u64)
        ensures
            r == self.total(),
    {
        self.total_staked
    }
}

} // verus!
