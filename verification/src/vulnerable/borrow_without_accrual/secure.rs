//! Borrowing against a limit checked on the debt with interest accrued.
use vstd::prelude::*;
use crate::host::{Addr, Env, Error, env_after};
use super::{accrue_borrower, accrue_market, projected_debt, DebtBook, BORROW_LIMIT};

verus! {

/// A lending market that accrues interest before every new borrow.
pub struct SecureBorrowWithoutAccrual {
    book: DebtBook,
}

impl SecureBorrowWithoutAccrual {
    pub closed spec fn book(&self) -> DebtBook {
        self.book
    }

    /// A market with no debts.
    pub fn new() -> (c: Self)
        ensures
            c.book().debts() == Map::<Addr, i128>::empty(),
            c.book().last_accruals() == Map::<Addr, u32>::empty(),
            c.book().last_market() is None,
    {
        SecureBorrowWithoutAccrual { book: DebtBook::new() }
    }

    /// Opens a debt of `initial_borrow` for `borrower`, who must authorize,
    /// accruing from now; refused unless the amount is positive and within
    /// `BORROW_LIMIT`.
    pub fn initialize(&mut self, env: &mut Env, borrower: Addr, initial_borrow: i128) -> (r: Result<(), Error>)
        ensures
            !(0 < initial_borrow <= BORROW_LIMIT) <==> r is Err,
            r is Err ==> r == Err::<(), Error>(Error::InvalidBorrow),
            r is Err ==> *final(self) == *old(self),
            r is Ok ==> {
                &&& env_after(*old(env), *final(env), seq![borrower], seq![])
                &&& final(self).book().debts() == old(self).book().debts().insert(borrower, initial_borrow)
                &&& final(self).book().last_accruals() == old(self).book().last_accruals().insert(borrower, old(env).sequence)
                &&& final(self).book().last_market() == Some(old(env).sequence)
            },
    {
        env.require_auth(borrower);
        if !(initial_borrow > 0 && initial_borrow <= BORROW_LIMIT) {
            return Err(Error::InvalidBorrow);
        }
        self.book.set_debt(borrower, initial_borrow);
        self.book.set_last_accrual(borrower, env.sequence);
        accrue_market(&mut self.book, env);
        Ok(())
    }

    /// Accrues the interest of `borrower`, who must authorize, then adds
    /// `amount` to the debt as long as the accrued debt plus `amount` stays
    /// within `BORROW_LIMIT`.
    pub fn borrow(&mut self, env: &mut Env, borrower: Addr, amount: i128) -> (r: Result<(), Error>)
        requires
            amount > 0 ==> old(self).book().projection_fits(borrower, old(env).sequence),
            amount > 0 ==> old(self).book().projected(borrower, old(env).sequence) + amount <= i128::MAX,
        ensures
            r is Ok ==> final(self).book().owed(borrower) <= BORROW_LIMIT,
            r is Err ==> *final(self) == *old(self),
            amount <= 0 ==> r == Err::<(), Error>(Error::AmountNotPositive),
            amount > 0 ==> {
                let d = old(self).book().projected(borrower, old(env).sequence);
                let stale = old(self).book().owed(borrower) != 0 && old(env).sequence <= old(self).book().last(borrower);
                &&& d + amount > BORROW_LIMIT ==> r == Err::<(), Error>(Error::BorrowLimitExceeded)
                &&& d + amount <= BORROW_LIMIT ==> {
                    &&& r is Ok
                    &&& env_after(*old(env), *final(env), seq![borrower], seq![])
                    &&& final(self).book().debts() == old(self).book().debts().insert(borrower, (d + amount) as i128)
                    &&& final(self).book().last_accruals() == if stale {
                        old(self).book().last_accruals()
                    } else {
                        old(self).book().last_accruals().insert(borrower, old(env).sequence)
                    }
                    &&& final(self).book().last_market() == Some(old(env).sequence)
                }
            },
    {
        env.require_auth(borrower);
        if amount <= 0 {
            return Err(Error::AmountNotPositive);
        }
        let projected = projected_debt(&self.book, env, borrower);
        if projected + amount > BORROW_LIMIT {
            return Err(Error::BorrowLimitExceeded);
        }
        accrue_market(&mut self.book, env);
        accrue_borrower(&mut self.book, env, borrower);
        let debt = self.book.get_debt(borrower);
        self.book.set_debt(borrower, debt + amount);
        Ok(())
    }

    /// The recorded debt of `borrower`, zero if none.
    pub fn debt(&self, borrower: Addr) -> (r: i128)
        ensures
            r == self.book().owed(borrower),
    {
        self.book.get_debt(borrower)
    }

    /// What `borrower` owes now, interest since the last accrual included.
    pub fn debt_after_accrual(&self, env: &Env, borrower: Addr) -> (r: i128)
        requires
            self.book().projection_fits(borrower, env.sequence),
        ensures
            r == self.book().projected(borrower, env.sequence),
    {
        projected_debt(&self.book, env, borrower)
    }
}

} // verus!
