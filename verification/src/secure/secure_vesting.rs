//! Token vesting with a cliff, linear release and revocation.
use vstd::prelude::*;
use crate::host::{Addr, Env, Error, env_after};
use crate::math::div_trunc;
use crate::table::Table;

verus! {

/// A beneficiary's grant: the total, what has been claimed, the ledgers at
/// which vesting starts and completes, and the ledger of revocation, if any.
#[derive(Clone, Copy, Debug, PartialEq, Eq, Structural)]
pub struct VestingSchedule {
    pub total: i128,
    pub claimed: i128,
    pub cliff_ledger: u32,
    pub end_ledger: u32,
    pub revoked_at: Option<u32>,
}

/// The ledger at which `s` is valued at ledger `now`: vesting stops at
/// revocation.
pub open spec fn effective_now(s: VestingSchedule, now: u32) -> u32 {
    match s.revoked_at {
        Some(r) => if now > r { r } else { now },
        None => now,
    }
}

/// What `s` has vested by ledger `now`: nothing before the cliff, the total
/// from the end on, and in between the total scaled by the share of the
/// cliff-to-end span that has elapsed, rounded toward zero.
pub open spec fn vested(s: VestingSchedule, now: u32) -> int {
    let e = effective_now(s, now);
    if e < s.cliff_ledger {
        0
    } else if e >= s.end_ledger {
        s.total as int
    } else {
        div_trunc(s.total * (e - s.cliff_ledger), s.end_ledger - s.cliff_ledger)
    }
}

/// The ledgers at which computing the vested amount of `s` stays within
/// `i128`.
pub open spec fn vested_defined(s: VestingSchedule, now: u32) -> bool {
    let e = effective_now(s, now);
    e < s.cliff_ledger || e >= s.end_ledger || i128::MIN <= s.total * (e - s.cliff_ledger) <= i128::MAX
}

/// The share of `total` vested after `done` of `span` ledgers lies between
/// zero and the total and grows with `done`.
proof fn lemma_share_bounded_and_ordered(total: int, d1: int, d2: int, span: int)
    requires
        total >= 0,
        0 <= d1 <= d2 <= span,
        span > 0,
    ensures
        0 <= div_trunc(total * d1, span) <= div_trunc(total * d2, span) <= total,
{
    vstd::arithmetic::mul::lemma_mul_inequality(d1, d2, total);
    vstd::arithmetic::mul::lemma_mul_inequality(d2, span, total);
    vstd::arithmetic::mul::lemma_mul_nonnegative(total, d1);
    assert(d1 * total == total * d1 && d2 * total == total * d2 && span * total == total * span) by (nonlinear_arith);
    vstd::arithmetic::div_mod::lemma_div_is_ordered(total * d1, total * d2, span);
    vstd::arithmetic::div_mod::lemma_div_is_ordered(total * d2, total * span, span);
    vstd::arithmetic::div_mod::lemma_div_is_ordered(0, total * d1, span);
    vstd::arithmetic::div_mod::lemma_div_multiples_vanish(total, span);
}

/// Vesting only grows and never exceeds the grant: for a grant of a
/// non-negative total whose cliff precedes its end, the amount vested by a
/// ledger lies between zero and the total, is zero before the cliff, is the
/// total from the end on when not revoked, and does not decrease as ledgers
/// pass (a revocation freezes it).
pub proof fn law_vesting_monotone_and_bounded(s: VestingSchedule, t1: u32, t2: u32)
    requires
        s.total >= 0,
        s.cliff_ledger < s.end_ledger,
        t1 <= t2,
    ensures
        0 <= vested(s, t1) <= s.total,
        vested(s, t1) <= vested(s, t2),
        effective_now(s, t1) < s.cliff_ledger ==> vested(s, t1) == 0,
        s.revoked_at is None && t1 >= s.end_ledger ==> vested(s, t1) == s.total,
{
    let e1 = effective_now(s, t1);
    let e2 = effective_now(s, t2);
    let c = s.cliff_ledger as int;
    let span = s.end_ledger - s.cliff_ledger;
    assert(e1 <= e2);
    if c <= e1 && e1 < s.end_ledger {
        let d2 = if e2 < s.end_ledger { e2 - c } else { span };
        lemma_share_bounded_and_ordered(s.total as int, e1 - c, d2, span);
        if e2 >= s.end_ledger {
            assert(vested(s, t2) == s.total);
        }
    }
}

/// A revocation freezes vesting: at any ledger from the revocation on, a
/// revoked grant has vested what it had at the revocation, and before it,
/// what the same grant unrevoked has.
pub proof fn law_revocation_freezes_vesting(s: VestingSchedule, now: u32)
    requires
        s.revoked_at is Some,
    ensures
        now >= s.revoked_at->0 ==> vested(s, now) == vested(s, s.revoked_at->0),
        now <= s.revoked_at->0 ==> vested(s, now) == vested(VestingSchedule { revoked_at: None, ..s }, now),
{
}

/// An unrevoked grant of a non-negative total vests nothing before its
/// cliff and the whole total from its end on; in between it has vested the
/// total in proportion to the ledgers elapsed since the cliff, rounded
/// down: `vested * span <= total * elapsed`, and one more unit would exceed
/// it.
pub proof fn law_unrevoked_vesting(s: VestingSchedule, now: u32)
    requires
        s.total >= 0,
        s.revoked_at is None,
        s.cliff_ledger < s.end_ledger,
    ensures
        now < s.cliff_ledger ==> vested(s, now) == 0,
        now >= s.end_ledger ==> vested(s, now) == s.total,
        s.cliff_ledger <= now < s.end_ledger ==> {
            &&& vested(s, now) * (s.end_ledger - s.cliff_ledger) <= s.total * (now - s.cliff_ledger)
            &&& s.total * (now - s.cliff_ledger) < (vested(s, now) + 1) * (s.end_ledger - s.cliff_ledger)
        },
{
    if s.cliff_ledger <= now < s.end_ledger {
        let a: int = s.total * (now - s.cliff_ledger);
        let span: int = s.end_ledger - s.cliff_ledger;
        assert(a >= 0) by (nonlinear_arith)
            requires a == s.total * (now - s.cliff_ledger), s.total >= 0, now >= s.cliff_ledger;
        assert(vested(s, now) == a / span);
        vstd::arithmetic::div_mod::lemma_fundamental_div_mod(a, span);
        let q = a / span;
        assert(q * span <= a < (q + 1) * span) by (nonlinear_arith)
            requires a == span * q + a % span, 0 <= a % span < span;
    }
}

/// The admin, the treasury and its balance, and a schedule per beneficiary.
pub struct SecureVesting {
    admin: Option<Addr>,
    treasury: Option<Addr>,
    treasury_balance: i128,
    schedules: Table<Addr, VestingSchedule>,
}

impl SecureVesting {
    pub closed spec fn admin(&self) -> Option<Addr> {
        self.admin
    }

    pub closed spec fn treasury(&self) -> Option<Addr> {
        self.treasury
    }

    pub closed spec fn treasury_bal(&self) -> i128 {
        self.treasury_balance
    }

    pub closed spec fn schedules(&self) -> Map<Addr, VestingSchedule> {
        self.schedules@
    }

    /// A contract with no admin, no treasury and no schedules.
    pub fn new() -> (c: Self)
        ensures
            c.admin() is None,
            c.treasury() is None,
            c.treasury_bal() == 0,
            c.schedules() == Map::<Addr, VestingSchedule>::empty(),
    {
        SecureVesting { admin: None, treasury: None, treasury_balance: 0, schedules: Table::new() }
    }

    /// Sets the admin, who must authorize, and the treasury, and zeroes the
    /// treasury balance.
    pub fn initialize(&mut self, env: &mut Env, admin: Addr, treasury: Addr)
        ensures
            env_after(*old(env), *final(env), seq![admin], seq![]),
            final(self).admin() == Some(admin),
            final(self).treasury() == Some(treasury),
            final(self).treasury_bal() == 0,
            final(self).schedules() == old(self).schedules(),
    {
        env.require_auth(admin);
        self.admin = Some(admin);
        self.treasury = Some(treasury);
        self.treasury_balance = 0;
    }

    /// Grants `beneficiary` a schedule of `total` vesting from `cliff_ledger`
    /// to `end_ledger`; the admin must authorize. Refused before
    /// initialization, for a non-positive total, for a cliff not before the
    /// end, or when the beneficiary has a schedule already.
    pub fn create_schedule(
        &mut self,
        env: &mut Env,
        beneficiary: Addr,
        total: i128,
        cliff_ledger: u32,
        end_ledger: u32,
    ) -> (r: Result<(), Error>)
        ensures
            r is Err ==> *final(self) == *old(self),
            old(self).admin() is None ==> r == Err::<(), Error>(Error::NotInitialized),
            old(self).admin() is Some && total <= 0 ==> r == Err::<(), Error>(Error::AmountNotPositive),
            old(self).admin() is Some && total > 0 && cliff_ledger >= end_ledger
                ==> r == Err::<(), Error>(Error::InvalidSchedule),
            old(self).admin() is Some && total > 0 && cliff_ledger < end_ledger
                && old(self).schedules().contains_key(beneficiary) ==> r == Err::<(), Error>(Error::ScheduleExists),
            old(self).admin() is Some && total > 0 && cliff_ledger < end_ledger
                && !old(self).schedules().contains_key(beneficiary) ==> {
                &&& r is Ok
                &&& env_after(*old(env), *final(env), seq![old(self).admin()->0], seq![])
                &&& final(self).schedules() == old(self).schedules().insert(
                    beneficiary,
                    VestingSchedule { total, claimed: 0, cliff_ledger, end_ledger, revoked_at: None },
                )
                &&& final(self).admin() == old(self).admin()
                &&& final(self).treasury() == old(self).treasury()
                &&& final(self).treasury_bal() == old(self).treasury_bal()
            },
    {
        if let Err(e) = self.require_admin_auth(env) {
            return Err(e);
        }
        if total <= 0 {
            return Err(Error::AmountNotPositive);
        }
        if cliff_ledger >= end_ledger {
            return Err(Error::InvalidSchedule);
        }
        if self.schedules.has(&beneficiary) {
            return Err(Error::ScheduleExists);
        }
        let schedule = VestingSchedule { total, claimed: 0, cliff_ledger, end_ledger, revoked_at: None };
        self.schedules.set(beneficiary, schedule);
        Ok(())
    }

    /// Pays out to `beneficiary`, who must authorize, what has vested beyond
    /// what was claimed, and records it as claimed. Refused without a
    /// schedule, for a revoked one, or when nothing new has vested.
    pub fn claim(&mut self, env: &mut Env, beneficiary: Addr) -> (r: Result<i128, Error>)
        requires
            old(self).schedules().contains_key(beneficiary) ==> {
                let s = old(self).schedules()[beneficiary];
                &&& vested_defined(s, old(env).sequence)
                &&& vested(s, old(env).sequence) - s.claimed <= i128::MAX
            },
        ensures
            r is Err ==> *final(self) == *old(self),
            !old(self).schedules().contains_key(beneficiary) ==> r == Err::<i128, Error>(Error::ScheduleNotFound),
            old(self).schedules().contains_key(beneficiary) ==> {
                let s = old(self).schedules()[beneficiary];
                let v = vested(s, old(env).sequence);
                &&& s.revoked_at is Some ==> r == Err::<i128, Error>(Error::ScheduleRevoked)
                &&& s.revoked_at is None && v <= s.claimed ==> r == Err::<i128, Error>(Error::NothingClaimable)
                &&& s.revoked_at is None && v > s.claimed ==> {
                    &&& r == Ok::<i128, Error>((v - s.claimed) as i128)
                    &&& env_after(*old(env), *final(env), seq![beneficiary], seq![])
                    &&& final(self).schedules() == old(self).schedules().insert(
                        beneficiary,
                        VestingSchedule { claimed: v as i128, ..s },
                    )
                    &&& final(self).admin() == old(self).admin()
                    &&& final(self).treasury() == old(self).treasury()
                    &&& final(self).treasury_bal() == old(self).treasury_bal()
                }
            },
    {
        env.require_auth(beneficiary);
        let mut schedule = match self.schedules.get(&beneficiary) {
            Some(s) => *s,
            None => {
                return Err(Error::ScheduleNotFound);
            },
        };
        if schedule.revoked_at.is_some() {
            return Err(Error::ScheduleRevoked);
        }
        let vested = Self::vested_for_schedule(env, &schedule);
        if vested <= schedule.claimed {
            return Err(Error::NothingClaimable);
        }
        let claimable = vested - schedule.claimed;
        schedule.claimed = vested;
        self.schedules.set(beneficiary, schedule);
        Ok(claimable)
    }

    /// Revokes the schedule of `beneficiary`, returning what has not vested
    /// to the treasury balance; the admin must authorize. Refused before
    /// initialization, without a schedule, or for a revoked one.
    pub fn revoke(&mut self, env: &mut Env, beneficiary: Addr) -> (r: Result<(), Error>)
        requires
            old(self).schedules().contains_key(beneficiary) ==> {
                let s = old(self).schedules()[beneficiary];
                &&& vested_defined(s, old(env).sequence)
                &&& i128::MIN <= s.total - vested(s, old(env).sequence) <= i128::MAX
                &&& i128::MIN <= old(self).treasury_bal() + s.total - vested(s, old(env).sequence) <= i128::MAX
            },
        ensures
            r is Err ==> *final(self) == *old(self),
            old(self).admin() is None ==> r == Err::<(), Error>(Error::NotInitialized),
            old(self).admin() is Some && !old(self).schedules().contains_key(beneficiary)
                ==> r == Err::<(), Error>(Error::ScheduleNotFound),
            old(self).admin() is Some && old(self).schedules().contains_key(beneficiary) ==> {
                let s = old(self).schedules()[beneficiary];
                let v = vested(s, old(env).sequence);
                &&& s.revoked_at is Some ==> r == Err::<(), Error>(Error::AlreadyRevoked)
                &&& s.revoked_at is None ==> {
                    &&& r is Ok
                    &&& env_after(*old(env), *final(env), seq![old(self).admin()->0], seq![])
                    &&& final(self).treasury_bal() == old(self).treasury_bal() + s.total - v
                    &&& final(self).schedules() == old(self).schedules().insert(
                        beneficiary,
                        VestingSchedule { revoked_at: Some(old(env).sequence), ..s },
                    )
                    &&& final(self).admin() == old(self).admin()
                    &&& final(self).treasury() == old(self).treasury()
                }
            },
    {
        if let Err(e) = self.require_admin_auth(env) {
            return Err(e);
        }
        let mut schedule = match self.schedules.get(&beneficiary) {
            Some(s) => *s,
            None => {
                return Err(Error::ScheduleNotFound);
            },
        };
        if schedule.revoked_at.is_some() {
            return Err(Error::AlreadyRevoked);
        }
        let now = env.sequence;
        let vested_now = Self::vested_for_schedule(env, &schedule);
        let unvested = schedule.total - vested_now;
        self.treasury_balance = self.treasury_balance + unvested;
        schedule.revoked_at = Some(now);
        self.schedules.set(beneficiary, schedule);
        Ok(())
    }

    /// What the schedule of `beneficiary` has vested by now; refused without
    /// a schedule.
    pub fn vested_amount(&self, env: &Env, beneficiary: Addr) -> (r: Result<i128, Error>)
        requires
            self.schedules().contains_key(beneficiary) ==> vested_defined(self.schedules()[beneficiary], env.sequence),
        ensures
            !self.schedules().contains_key(beneficiary) ==> r == Err::<i128, Error>(Error::ScheduleNotFound),
            self.schedules().contains_key(beneficiary) ==> r == Ok::<i128, Error>(
                vested(self.schedules()[beneficiary], env.sequence) as i128,
            ),
    {
        match self.schedules.get(&beneficiary) {
            Some(s) => Ok(Self::vested_for_schedule(env, s)),
            None => Err(Error::ScheduleNotFound),
        }
    }

    /// The total, the claimed amount and whether revoked, of the schedule of
    /// `beneficiary`; refused without a schedule.
    pub fn get_position(&self, beneficiary: Addr) -> (r: Result<(i128, i128, bool), Error>)
        ensures
            !self.schedules().contains_key(beneficiary) ==> r == Err::<(i128, i128, bool), Error>(Error::ScheduleNotFound),
            self.schedules().contains_key(beneficiary) ==> {
                let s = self.schedules()[beneficiary];
                r == Ok::<(i128, i128, bool), Error>((s.total, s.claimed, s.revoked_at is Some))
            },
    {
        match self.schedules.get(&beneficiary) {
            Some(s) => Ok((s.total, s.claimed, s.revoked_at.is_some())),
            None => Err(Error::ScheduleNotFound),
        }
    }

    /// The treasury balance.
    pub fn treasury_balance(&self) -> (r: i128)
        ensures
            r == self.treasury_bal(),
    {
        self.treasury_balance
    }

    /// What `schedule` has vested at the current ledger.
    pub fn vested_for_schedule(env: &Env, schedule: &VestingSchedule) -> (r: i128)
        requires
            vested_defined(*schedule, env.sequence),
        ensures
            r == vested(*schedule, env.sequence),
    {
        let now = env.sequence;
        let effective_now = match schedule.revoked_at {
            Some(revoked_at) => if now > revoked_at { revoked_at } else { now },
            None => now,
        };
        if effective_now < schedule.cliff_ledger {
            return 0;
        }
        if effective_now >= schedule.end_ledger {
            return schedule.total;
        }
        let elapsed = (effective_now - schedule.cliff_ledger) as i128;
        let duration = (schedule.end_ledger - schedule.cliff_ledger) as i128;
        schedule.total * elapsed / duration
    }

    fn require_admin_auth(&self, env: &mut Env) -> (r: Result<(), Error>)
        ensures
            self.admin() is None <==> r is Err,
            r is Err ==> r == Err::<(), Error>(Error::NotInitialized),
            self.admin() is Some <==> r is Ok,
            r is Ok ==> env_after(*old(env), *final(env), seq![self.admin()->0], seq![]),
    {
        match self.admin {
            Some(admin) => {
                env.require_auth(admin);
                Ok(())
            },
            None => Err(Error::NotInitialized),
        }
    }
}

} // verus!
