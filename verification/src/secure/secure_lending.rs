//! Collateralised borrowing with a minimum ratio and liquidation.
use vstd::prelude::*;
use crate::host::{Addr, Env, Error, env_after};
use crate::table::{Table, value_or};

verus! {

/// The collateral a borrow must keep, in percent of the debt.
pub const MIN_COLLATERAL_RATIO: i128 = 150;

/// The collateral, in percent of the debt, below which a position may be
/// liquidated.
pub const LIQUIDATION_THRESHOLD: i128 = 120;

/// Whether `x` fits in an `i128`.
pub open spec fn fits(x: int) -> bool {
    i128::MIN <= x <= i128::MAX
}

/// Collateral and debt per borrower. The tables are the contract's storage;
/// whoever holds the contract (a host, a test standing in for a repricing)
/// may write them directly.
pub struct SecureLending {
    pub collateral: Table<Addr, i128>,
    pub debt: Table<Addr, i128>,
}

impl SecureLending {
    pub closed spec fn collaterals(&self) -> Map<Addr, i128> {
        self.collateral@
    }

    pub closed spec fn debts(&self) -> Map<Addr, i128> {
        self.debt@
    }

    /// The collateral of `a`, zero if none.
    pub open spec fn coll(&self, a: Addr) -> int {
        value_or(self.collaterals(), a, 0i128) as int
    }

    /// The debt of `a`, zero if none.
    pub open spec fn owed(&self, a: Addr) -> int {
        value_or(self.debts(), a, 0i128) as int
    }

    /// A market with no positions.
    pub fn new() -> (c: Self)
        ensures
            c.collaterals() == Map::<Addr, i128>::empty(),
            c.debts() == Map::<Addr, i128>::empty(),
    {
        SecureLending { collateral: Table::new(), debt: Table::new() }
    }

    /// Opens (or resets) the position of `borrower`, who must authorize, with
    /// no collateral and no debt.
    pub fn initialize(&mut self, env: &mut Env, borrower: Addr)
        ensures
            env_after(*old(env), *final(env), seq![borrower], seq![]),
            final(self).collaterals() == old(self).collaterals().insert(borrower, 0),
            final(self).debts() == old(self).debts().insert(borrower, 0),
    {
        env.require_auth(borrower);
        self.collateral.set(borrower, 0);
        self.debt.set(borrower, 0);
    }

    /// Adds `amount` to the collateral of `borrower`, who must authorize.
    /// Refused for a non-positive amount or where the collateral would
    /// overflow.
    pub fn deposit_collateral(&mut self, env: &mut Env, borrower: Addr, amount: i128) -> (r: Result<(), Error>)
        ensures
            r is Err ==> *final(self) == *old(self),
            amount <= 0 ==> r == Err::<(), Error>(Error::AmountNotPositive),
            amount > 0 && !fits(old(self).coll(borrower) + amount) ==> r == Err::<(), Error>(Error::Overflow),
            amount > 0 && fits(old(self).coll(borrower) + amount) ==> {
                &&& r is Ok
                &&& env_after(*old(env), *final(env), seq![borrower], seq![])
                &&& final(self).collaterals() == old(self).collaterals().insert(
                    borrower,
                    (old(self).coll(borrower) + amount) as i128,
                )
                &&& final(self).debts() == old(self).debts()
            },
    {
        env.require_auth(borrower);
        if amount <= 0 {
            return Err(Error::AmountNotPositive);
        }
        let current = self.collateral.amount(&borrower);
        match current.checked_add(amount) {
            Some(updated) => {
                self.collateral.set(borrower, updated);
                Ok(())
            },
            None => Err(Error::Overflow),
        }
    }

    /// Adds `amount` to the debt of `borrower`, who must authorize, provided
    /// the collateral stays at least 150% of the new debt. Refused for a
    /// non-positive amount, where an intermediate value would overflow, or
    /// for insufficient collateral.
    pub fn borrow(&mut self, env: &mut Env, borrower: Addr, amount: i128) -> (r: Result<(), Error>)
        ensures
            r is Ok ==> final(self).coll(borrower) * 100 >= final(self).owed(borrower) * MIN_COLLATERAL_RATIO,
            r is Err ==> *final(self) == *old(self),
            amount <= 0 ==> r == Err::<(), Error>(Error::AmountNotPositive),
            amount > 0 ==> {
                let nd = old(self).owed(borrower) + amount;
                let c = old(self).coll(borrower);
                &&& !(fits(nd) && fits(c * 100) && fits(nd * 150)) ==> r == Err::<(), Error>(Error::Overflow)
                &&& fits(nd) && fits(c * 100) && fits(nd * 150) && c * 100 < nd * 150
                    ==> r == Err::<(), Error>(Error::InsufficientCollateral)
                &&& fits(nd) && fits(c * 100) && fits(nd * 150) && c * 100 >= nd * 150 ==> {
                    &&& r is Ok
                    &&& env_after(*old(env), *final(env), seq![borrower], seq![])
                    &&& final(self).collaterals() == old(self).collaterals()
                    &&& final(self).debts() == old(self).debts().insert(borrower, nd as i128)
                }
            },
    {
        env.require_auth(borrower);
        if amount <= 0 {
            return Err(Error::AmountNotPositive);
        }
        let collateral = self.collateral.amount(&borrower);
        let debt = self.debt.amount(&borrower);
        let new_debt = match debt.checked_add(amount) {
            Some(v) => v,
            None => {
                return Err(Error::Overflow);
            },
        };
        let lhs = match collateral.checked_mul(100) {
            Some(v) => v,
            None => {
                return Err(Error::Overflow);
            },
        };
        let rhs = match new_debt.checked_mul(MIN_COLLATERAL_RATIO) {
            Some(v) => v,
            None => {
                return Err(Error::Overflow);
            },
        };
        if lhs < rhs {
            return Err(Error::InsufficientCollateral);
        }
        self.debt.set(borrower, new_debt);
        Ok(())
    }

    /// Reduces the debt of `borrower`, who must authorize, by `amount`.
    /// Refused for a non-positive amount or one above the debt.
    pub fn repay(&mut self, env: &mut Env, borrower: Addr, amount: i128) -> (r: Result<(), Error>)
        ensures
            r is Err ==> *final(self) == *old(self),
            amount <= 0 ==> r == Err::<(), Error>(Error::AmountNotPositive),
            amount > 0 && amount > old(self).owed(borrower) ==> r == Err::<(), Error>(Error::RepayExceedsDebt),
            amount > 0 && amount <= old(self).owed(borrower) ==> {
                &&& r is Ok
                &&& env_after(*old(env), *final(env), seq![borrower], seq![])
                &&& final(self).collaterals() == old(self).collaterals()
                &&& final(self).debts() == old(self).debts().insert(
                    borrower,
                    (old(self).owed(borrower) - amount) as i128,
                )
            },
    {
        env.require_auth(borrower);
        if amount <= 0 {
            return Err(Error::AmountNotPositive);
        }
        let debt = self.debt.amount(&borrower);
        if amount > debt {
            return Err(Error::RepayExceedsDebt);
        }
        self.debt.set(borrower, debt - amount);
        Ok(())
    }

    /// Clears the position of `borrower` when its collateral has fallen below
    /// 120% of its debt; `caller` must authorize. Refused when there is no
    /// debt, where an intermediate value would overflow, or when the position
    /// is healthy.
    pub fn liquidate(&mut self, env: &mut Env, borrower: Addr, caller: Addr) -> (r: Result<(), Error>)
        ensures
            r is Err ==> *final(self) == *old(self),
            old(self).owed(borrower) == 0 ==> r == Err::<(), Error>(Error::NothingToLiquidate),
            old(self).owed(borrower) != 0 ==> {
                let d = old(self).owed(borrower);
                let c = old(self).coll(borrower);
                &&& !(fits(c * 100) && fits(d * 120)) ==> r == Err::<(), Error>(Error::Overflow)
                &&& fits(c * 100) && fits(d * 120) && c * 100 >= d * 120
                    ==> r == Err::<(), Error>(Error::NotLiquidatable)
                &&& fits(c * 100) && fits(d * 120) && c * 100 < d * 120 ==> {
                    &&& r is Ok
                    &&& env_after(*old(env), *final(env), seq![caller], seq![])
                    &&& final(self).collaterals() == old(self).collaterals().insert(borrower, 0)
                    &&& final(self).debts() == old(self).debts().insert(borrower, 0)
                }
            },
    {
        env.require_auth(caller);
        let collateral = self.collateral.amount(&borrower);
        let debt = self.debt.amount(&borrower);
        if debt == 0 {
            return Err(Error::NothingToLiquidate);
        }
        let lhs = match collateral.checked_mul(100) {
            Some(v) => v,
            None => {
                return Err(Error::Overflow);
            },
        };
        let rhs = match debt.checked_mul(LIQUIDATION_THRESHOLD) {
            Some(v) => v,
            None => {
                return Err(Error::Overflow);
            },
        };
        if lhs >= rhs {
            return Err(Error::NotLiquidatable);
        }
        self.collateral.set(borrower, 0);
        self.debt.set(borrower, 0);
        Ok(())
    }

    /// The collateral and the debt of `borrower`.
    pub fn get_position(&self, borrower: Addr) -> (r: (i128, i128))
        ensures
            r.0 == self.coll(borrower),
            r.1 == self.owed(borrower),
    {
        (self.get_collateral(borrower), self.get_debt(borrower))
    }

    fn get_collateral(&self, borrower: Addr) -> (r: i128)
        ensures
            r == self.coll(borrower),
    {
        self.collateral.amount(&borrower)
    }

    fn get_debt(&self, borrower: Addr) -> (r: i128)
        ensures
            r == self.owed(borrower),
    {
        self.debt.amount(&borrower)
    }
}

} // verus!
