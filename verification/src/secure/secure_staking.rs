//! Staking with a bounded reward rate and checked reward arithmetic.
use vstd::prelude::*;
use crate::host::{Addr, Env, Error, Event, StorageKey, Transfer, TtlExtension, env_after_all};
use crate::table::{Table, value_or};

verus! {

/// The highest reward rate the admin may set.
pub const MAX_RATE: u64 = 1_000_000;

/// The remaining lifetime, in ledgers, below which an accessed entry is
/// extended.
pub const TTL_THRESHOLD: u32 = 100;

/// The lifetime, in ledgers, an accessed entry is extended to.
pub const TTL_EXTEND_TO: u32 = 500;

/// The lifetime extension that an access of the entry `key` asks for.
pub open spec fn kept(key: StorageKey) -> TtlExtension {
    TtlExtension { key, threshold: TTL_THRESHOLD, extend_to: TTL_EXTEND_TO }
}

/// Extends the lifetime of the entry `key`, as every access does.
fn keep(env: &mut Env, key: StorageKey)
    ensures
        env_after_all(*old(env), *final(env), seq![], seq![], seq![], seq![kept(key)]),
{
    env.extend_ttl(key, TTL_THRESHOLD, TTL_EXTEND_TO);
}

/// An admin, the reward rate, and per staker the stake and the ledger from
/// which rewards accrue.
pub struct SecureStaking {
    admin: Option<Addr>,
    rate: u64,
    stakes: Table<Addr, u64>,
    staked_at: Table<Addr, u32>,
}

impl SecureStaking {
    pub closed spec fn admin(&self) -> Option<Addr> {
        self.admin
    }

    pub closed spec fn rate(&self) -> u64 {
        self.rate
    }

    pub closed spec fn stakes(&self) -> Map<Addr, u64> {
        self.stakes@
    }

    pub closed spec fn staked_ats(&self) -> Map<Addr, u32> {
        self.staked_at@
    }

    /// The reward owed to a stake of `staked` at `rate` over `elapsed` ledgers.
    pub open spec fn reward(staked: u64, rate: u64, elapsed: u32) -> int {
        staked * rate * elapsed
    }

    /// A contract with no admin, rate zero and no stakes.
    pub fn new() -> (c: Self)
        ensures
            c.admin() is None,
            c.rate() == 0,
            c.stakes() == Map::<Addr, u64>::empty(),
            c.staked_ats() == Map::<Addr, u32>::empty(),
    {
        SecureStaking { admin: None, rate: 0, stakes: Table::new(), staked_at: Table::new() }
    }

    /// Sets the admin and the reward rate, once, and extends the lifetime of
    /// the rate's entry; refused for a rate above `MAX_RATE`.
    pub fn initialize(&mut self, env: &mut Env, admin: Addr, reward_rate: u64) -> (r: Result<(), Error>)
        ensures
            r is Err ==> *final(self) == *old(self),
            old(self).admin() is Some ==> r == Err::<(), Error>(Error::AlreadyInitialized),
            old(self).admin() is None && reward_rate > MAX_RATE ==> r == Err::<(), Error>(Error::RateTooHigh),
            old(self).admin() is None && reward_rate <= MAX_RATE ==> {
                &&& r is Ok
                &&& env_after_all(*old(env), *final(env), seq![], seq![], seq![], seq![kept(StorageKey::RewardRate)])
                &&& final(self).admin() == Some(admin)
                &&& final(self).rate() == reward_rate
                &&& final(self).stakes() == old(self).stakes()
                &&& final(self).staked_ats() == old(self).staked_ats()
            },
    {
        if self.admin.is_some() {
            return Err(Error::AlreadyInitialized);
        }
        if reward_rate > MAX_RATE {
            return Err(Error::RateTooHigh);
        }
        self.admin = Some(admin);
        self.rate = reward_rate;
        keep(env, StorageKey::RewardRate);
        Ok(())
    }

    /// Sets the reward rate and extends the lifetime of its entry; `caller`
    /// must authorize and be the admin, and the rate may not exceed
    /// `MAX_RATE`.
    pub fn update_rate(&mut self, env: &mut Env, caller: Addr, new_rate: u64) -> (r: Result<(), Error>)
        ensures
            r is Err ==> *final(self) == *old(self),
            old(self).admin() is None ==> r == Err::<(), Error>(Error::NotInitialized),
            old(self).admin() is Some && old(self).admin() != Some(caller) ==> r == Err::<(), Error>(Error::NotAdmin),
            old(self).admin() == Some(caller) && new_rate > MAX_RATE ==> r == Err::<(), Error>(Error::RateTooHigh),
            old(self).admin() == Some(caller) && new_rate <= MAX_RATE ==> {
                &&& r is Ok
                &&& env_after_all(*old(env), *final(env), seq![caller], seq![], seq![], seq![kept(StorageKey::RewardRate)])
                &&& final(self).admin() == old(self).admin()
                &&& final(self).rate() == new_rate
                &&& final(self).stakes() == old(self).stakes()
                &&& final(self).staked_ats() == old(self).staked_ats()
            },
    {
        env.require_auth(caller);
        let admin = match self.admin {
            Some(a) => a,
            None => {
                return Err(Error::NotInitialized);
            },
        };
        if caller != admin {
            return Err(Error::NotAdmin);
        }
        if new_rate > MAX_RATE {
            return Err(Error::RateTooHigh);
        }
        self.rate = new_rate;
        keep(env, StorageKey::RewardRate);
        proof {
            assert(env.auths@ =~= old(env).auths@ + seq![caller]);
            assert(env.transfers@ =~= old(env).transfers@ + Seq::<Transfer>::empty());
            assert(env.events@ =~= old(env).events@ + Seq::<Event>::empty());
            assert(env.ttl_extensions@ =~= old(env).ttl_extensions@ + seq![kept(StorageKey::RewardRate)]);
        }
        Ok(())
    }

    /// Replaces the stake of `staker`, who must authorize, with `amount` and
    /// restarts its accrual at the current ledger, extending the lifetime of
    /// both entries; refused for a zero amount.
    pub fn stake(&mut self, env: &mut Env, staker: Addr, amount: u64) -> (r: Result<(), Error>)
        ensures
            r is Err ==> *final(self) == *old(self),
            amount == 0 <==> r is Err,
            r is Err ==> r == Err::<(), Error>(Error::AmountNotPositive),
            r is Ok ==> {
                &&& env_after_all(
                    *old(env),
                    *final(env),
                    seq![staker],
                    seq![],
                    seq![],
                    seq![kept(StorageKey::Stake(staker)), kept(StorageKey::StakedAt(staker))],
                )
                &&& final(self).admin() == old(self).admin()
                &&& final(self).rate() == old(self).rate()
                &&& final(self).stakes() == old(self).stakes().insert(staker, amount)
                &&& final(self).staked_ats() == old(self).staked_ats().insert(staker, old(env).sequence)
            },
    {
        env.require_auth(staker);
        if amount == 0 {
            return Err(Error::AmountNotPositive);
        }
        self.stakes.set(staker, amount);
        keep(env, StorageKey::Stake(staker));
        self.staked_at.set(staker, env.sequence);
        keep(env, StorageKey::StakedAt(staker));
        proof {
            assert(env.auths@ =~= old(env).auths@ + seq![staker]);
            assert(env.transfers@ =~= old(env).transfers@ + Seq::<Transfer>::empty());
            assert(env.events@ =~= old(env).events@ + Seq::<Event>::empty());
            assert(env.ttl_extensions@ =~= old(env).ttl_extensions@
                + seq![kept(StorageKey::Stake(staker)), kept(StorageKey::StakedAt(staker))]);
        }
        Ok(())
    }

    /// Returns the reward accrued by `staker`, who must authorize: stake
    /// times rate times the ledgers elapsed since accrual last started, which
    /// then restarts at the current ledger. Every entry read or written has
    /// its lifetime extended. Refused where the reward would overflow a
    /// `u64`.
    pub fn claim_rewards(&mut self, env: &mut Env, staker: Addr) -> (r: Result<u64, Error>)
        requires
            old(env).sequence >= value_or(old(self).staked_ats(), staker, 0u32),
        ensures
            ({
                let staked = value_or(old(self).stakes(), staker, 0u64);
                let elapsed = (old(env).sequence - value_or(old(self).staked_ats(), staker, 0u32)) as u32;
                let reward = Self::reward(staked, old(self).rate(), elapsed);
                &&& staked * old(self).rate() > u64::MAX || reward > u64::MAX
                    ==> r == Err::<u64, Error>(Error::Overflow) && *final(self) == *old(self)
                &&& staked * old(self).rate() <= u64::MAX && reward <= u64::MAX ==> {
                    &&& r == Ok::<u64, Error>(reward as u64)
                    &&& env_after_all(
                        *old(env),
                        *final(env),
                        seq![staker],
                        seq![],
                        seq![],
                        seq![
                            kept(StorageKey::Stake(staker)),
                            kept(StorageKey::StakedAt(staker)),
                            kept(StorageKey::RewardRate),
                            kept(StorageKey::StakedAt(staker)),
                        ],
                    )
                    &&& final(self).admin() == old(self).admin()
                    &&& final(self).rate() == old(self).rate()
                    &&& final(self).stakes() == old(self).stakes()
                    &&& final(self).staked_ats() == old(self).staked_ats().insert(staker, old(env).sequence)
                }
            }),
    {
        env.require_auth(staker);
        let staked = match self.stakes.get(&staker) {
            Some(v) => *v,
            None => 0,
        };
        keep(env, StorageKey::Stake(staker));
        let staked_at = match self.staked_at.get(&staker) {
            Some(v) => *v,
            None => 0,
        };
        keep(env, StorageKey::StakedAt(staker));
        let rate = self.rate;
        keep(env, StorageKey::RewardRate);
        let current = env.sequence;
        let elapsed = (current - staked_at) as u64;
        let reward = match staked.checked_mul(rate) {
            Some(v) => match v.checked_mul(elapsed) {
                Some(w) => w,
                None => {
                    return Err(Error::Overflow);
                },
            },
            None => {
                return Err(Error::Overflow);
            },
        };
        self.staked_at.set(staker, current);
        keep(env, StorageKey::StakedAt(staker));
        proof {
            assert(env.auths@ =~= old(env).auths@ + seq![staker]);
            assert(env.transfers@ =~= old(env).transfers@ + Seq::<Transfer>::empty());
            assert(env.events@ =~= old(env).events@ + Seq::<Event>::empty());
            assert(env.ttl_extensions@ =~= old(env).ttl_extensions@ + seq![
                kept(StorageKey::Stake(staker)),
                kept(StorageKey::StakedAt(staker)),
                kept(StorageKey::RewardRate),
                kept(StorageKey::StakedAt(staker)),
            ]);
        }
        Ok(reward)
    }

    /// The stake of `staker`, zero if none; a positive stake has the lifetime
    /// of its entry extended.
    pub fn staked_amount(&self, env: &mut Env, staker: Addr) -> (r: u64)
        ensures
            r == value_or(self.stakes(), staker, 0u64),
            env_after_all(
                *old(env),
                *final(env),
                seq![],
                seq![],
                seq![],
                if r > 0 { seq![kept(StorageKey::Stake(staker))] } else { seq![] },
            ),
    {
        let val = match self.stakes.get(&staker) {
            Some(v) => *v,
            None => 0,
        };
        if val > 0 {
            keep(env, StorageKey::Stake(staker));
        } else {
            proof {
                assert(env.auths@ =~= old(env).auths@ + Seq::<Addr>::empty());
                assert(env.transfers@ =~= old(env).transfers@ + Seq::<Transfer>::empty());
                assert(env.events@ =~= old(env).events@ + Seq::<Event>::empty());
                assert(env.ttl_extensions@ =~= old(env).ttl_extensions@ + Seq::<TtlExtension>::empty());
            }
        }
        val
    }
}

/// Claiming in steps pays what one claim over the whole period pays: since
/// a claim restarts the staker's clock at the current ledger, the rewards of
/// consecutive periods of `e1` and `e2` ledgers add up to the reward of one
/// period of `e1 + e2` ledgers; nothing is lost and nothing is paid twice.
pub proof fn law_rewards_add_up(staked: u64, rate: u64, e1: u32, e2: u32)
    requires
        e1 + e2 <= u32::MAX,
    ensures
        SecureStaking::reward(staked, rate, (e1 + e2) as u32)
            == SecureStaking::reward(staked, rate, e1) + SecureStaking::reward(staked, rate, e2),
        SecureStaking::reward(staked, rate, 0) == 0,
{
    let k = staked * rate;
    assert(k * (e1 + e2) == k * e1 + k * e2) by (nonlinear_arith);
}

} // verus!
