//! Borrowing against a limit, with interest that accrues per ledger, where
//! new borrowing may skip accrual.
use vstd::prelude::*;
use crate::host::{Addr, Env, Error, env_after};
use crate::math::div_trunc;
use crate::table::{Table, value_or};

pub mod secure;

verus! {

/// Interest per ledger, in basis points of the debt.
pub const INTEREST_BPS_PER_LEDGER: i128 = 100;

/// The most any borrower may owe.
pub const BORROW_LIMIT: i128 = 1_000;

/// The interest on `debt` over `elapsed` ledgers, rounded toward zero.
pub open spec fn interest(debt: int, elapsed: int) -> int {
    div_trunc(debt * 100 * elapsed, 10_000)
}

proof fn lemma_scaled_fits(d: int, e: int)
    requires
        e >= 1,
        i128::MIN <= d * 100 * e <= i128::MAX,
    ensures
        i128::MIN <= d * 100 <= i128::MAX,
{
    assert(d >= 0 ==> d * 100 <= d * 100 * e) by (nonlinear_arith)
        requires e >= 1;
    assert(d < 0 ==> d * 100 >= d * 100 * e) by (nonlinear_arith)
        requires e >= 1;
}

/// Debts, the ledger each borrower's interest was last accrued at, and the
/// ledger the market was last touched at.
pub struct DebtBook {
    debts: Table<Addr, i128>,
    last_accrual: Table<Addr, u32>,
    last_market: Option<u32>,
}

impl DebtBook {
    pub closed spec fn debts(&self) -> Map<Addr, i128> {
        self.debts@
    }

    pub closed spec fn last_accruals(&self) -> Map<Addr, u32> {
        self.last_accrual@
    }

    pub closed spec fn last_market(&self) -> Option<u32> {
        self.last_market
    }

    /// The debt of `a`, zero if none.
    pub open spec fn owed(&self, a: Addr) -> int {
        value_or(self.debts(), a, 0i128) as int
    }

    /// The ledger interest of `a` was last accrued at, zero if never.
    pub open spec fn last(&self, a: Addr) -> u32 {
        value_or(self.last_accruals(), a, 0u32)
    }

    /// What `a` owes at ledger `now` once interest since the last accrual is
    /// added.
    pub open spec fn projected(&self, a: Addr, now: u32) -> int {
        if self.owed(a) == 0 {
            0
        } else if now <= self.last(a) {
            self.owed(a)
        } else {
            self.owed(a) + interest(self.owed(a), now - self.last(a))
        }
    }

    /// Whether computing the projection of `a` at `now` stays within `i128`.
    pub open spec fn projection_fits(&self, a: Addr, now: u32) -> bool {
        self.owed(a) != 0 && now > self.last(a) ==> {
            &&& i128::MIN <= self.owed(a) * 100 * (now - self.last(a)) <= i128::MAX
            &&& i128::MIN <= self.projected(a, now) <= i128::MAX
        }
    }

    /// An empty book.
    pub fn new() -> (b: Self)
        ensures
            b.debts() == Map::<Addr, i128>::empty(),
            b.last_accruals() == Map::<Addr, u32>::empty(),
            b.last_market() is None,
    {
        DebtBook { debts: Table::new(), last_accrual: Table::new(), last_market: None }
    }

    fn get_debt(&self, borrower: Addr) -> (r: i128)
        ensures
            r == self.owed(borrower),
    {
        self.debts.amount(&borrower)
    }

    fn set_debt(&mut self, borrower: Addr, debt: i128)
        ensures
            final(self).debts() == old(self).debts().insert(borrower, debt),
            final(self).last_accruals() == old(self).last_accruals(),
            final(self).last_market() == old(self).last_market(),
    {
        self.debts.set(borrower, debt);
    }

    fn get_last_accrual(&self, borrower: Addr) -> (r: u32)
        ensures
            r == self.last(borrower),
    {
        match self.last_accrual.get(&borrower) {
            Some(l) => *l,
            None => 0,
        }
    }

    fn set_last_accrual(&mut self, borrower: Addr, ledger: u32)
        ensures
            final(self).last_accruals() == old(self).last_accruals().insert(borrower, ledger),
            final(self).debts() == old(self).debts(),
            final(self).last_market() == old(self).last_market(),
    {
        self.last_accrual.set(borrower, ledger);
    }
}

/// Adds the interest owed by `borrower` since its last accrual to its debt
/// and moves its accrual ledger to now; without debt only the ledger moves,
/// and for a ledger not after the last accrual nothing changes.
pub fn accrue_borrower(book: &mut DebtBook, env: &Env, borrower: Addr)
    requires
        old(book).projection_fits(borrower, env.sequence),
    ensures
        final(book).last_market() == old(book).last_market(),
        old(book).owed(borrower) == 0 ==> {
            &&& final(book).debts() == old(book).debts()
            &&& final(book).last_accruals() == old(book).last_accruals().insert(borrower, env.sequence)
        },
        old(book).owed(borrower) != 0 && env.sequence <= old(book).last(borrower) ==> *final(book) == *old(book),
        old(book).owed(borrower) != 0 && env.sequence > old(book).last(borrower) ==> {
            &&& final(book).debts() == old(book).debts().insert(
                borrower,
                old(book).projected(borrower, env.sequence) as i128,
            )
            &&& final(book).last_accruals() == old(book).last_accruals().insert(borrower, env.sequence)
        },
{
    let debt = book.get_debt(borrower);
    if debt == 0 {
        book.set_last_accrual(borrower, env.sequence);
        return;
    }
    let last = book.get_last_accrual(borrower);
    let now = env.sequence;
    if now <= last {
        return;
    }
    let elapsed = (now - last) as i128;
    proof {
        lemma_scaled_fits(debt as int, elapsed as int);
    }
    let interest = debt * INTEREST_BPS_PER_LEDGER * elapsed / 10_000;
    book.set_debt(borrower, debt + interest);
    book.set_last_accrual(borrower, now);
}

/// Records the current ledger as the market's last touch.
pub fn accrue_market(book: &mut DebtBook, env: &Env)
    ensures
        final(book).last_market() == Some(env.sequence),
        final(book).debts() == old(book).debts(),
        final(book).last_accruals() == old(book).last_accruals(),
{
    book.last_market = Some(env.sequence);
}

/// What `borrower` owes now, interest since the last accrual included.
pub fn projected_debt(book: &DebtBook, env: &Env, borrower: Addr) -> (r: i128)
    requires
        book.projection_fits(borrower, env.sequence),
    ensures
        r == book.projected(borrower, env.sequence),
{
    let debt = book.get_debt(borrower);
    if debt == 0 {
        return 0;
    }
    let last = book.get_last_accrual(borrower);
    let now = env.sequence;
    if now <= last {
        return debt;
    }
    let elapsed = (now - last) as i128;
    proof {
        lemma_scaled_fits(debt as int, elapsed as int);
    }
    debt + debt * INTEREST_BPS_PER_LEDGER * elapsed / 10_000
}

/// A lending market whose borrowing checks the limit against the stale debt.
pub struct BorrowWithoutAccrual {
    book: DebtBook,
}

impl BorrowWithoutAccrual {
    pub closed spec fn book(&self) -> DebtBook {
        self.book
    }

    /// A market with no debts.
    pub fn new() -> (c: Self)
        ensures
            c.book().debts() == Map::<Addr, i128>::empty(),
            c.book().last_accruals() == Map::<Addr, u32>::empty(),
            c.book().last_market() is None,
    {
        BorrowWithoutAccrual { book: DebtBook::new() }
    }

    /// Opens a debt of `initial_borrow` for `borrower`, who must authorize,
    /// accruing from now; refused unless the amount is positive and within
    /// `BORROW_LIMIT`.
    pub fn initialize(&mut self, env: &mut Env, borrower: Addr, initial_borrow: i128) -> (r: Result<(), Error>)
        ensures
            !(0 < initial_borrow <= BORROW_LIMIT) <==> r is Err,
            r is Err ==> r == Err::<(), Error>(Error::InvalidBorrow),
            r is Err ==> *final(self) == *old(self),
            r is Ok ==> {
                &&& env_after(*old(env), *final(env), seq![borrower], seq![])
                &&& final(self).book().debts() == old(self).book().debts().insert(borrower, initial_borrow)
                &&& final(self).book().last_accruals() == old(self).book().last_accruals().insert(borrower, old(env).sequence)
                &&& final(self).book().last_market() == Some(old(env).sequence)
            },
    {
        env.require_auth(borrower);
        if !(initial_borrow > 0 && initial_borrow <= BORROW_LIMIT) {
            return Err(Error::InvalidBorrow);
        }
        self.book.set_debt(borrower, initial_borrow);
        self.book.set_last_accrual(borrower, env.sequence);
        accrue_market(&mut self.book, env);
        Ok(())
    }

    /// Adds `amount` to the debt of `borrower`, who must authorize, as long
    /// as the recorded debt, without the interest accrued since, stays within
    /// `BORROW_LIMIT`.
    pub fn borrow(&mut self, env: &mut Env, borrower: Addr, amount: i128) -> (r: Result<(), Error>)
        requires
            amount > 0 ==> old(self).book().owed(borrower) + amount <= i128::MAX,
        ensures
            r is Err ==> *final(self) == *old(self),
            amount <= 0 ==> r == Err::<(), Error>(Error::AmountNotPositive),
            amount > 0 && old(self).book().owed(borrower) + amount > BORROW_LIMIT
                ==> r == Err::<(), Error>(Error::BorrowLimitExceeded),
            amount > 0 && old(self).book().owed(borrower) + amount <= BORROW_LIMIT ==> {
                &&& r is Ok
                &&& env_after(*old(env), *final(env), seq![borrower], seq![])
                &&& final(self).book().debts() == old(self).book().debts().insert(
                    borrower,
                    (old(self).book().owed(borrower) + amount) as i128,
                )
                &&& final(self).book().last_accruals() == old(self).book().last_accruals()
                &&& final(self).book().last_market() == old(self).book().last_market()
            },
    {
        env.require_auth(borrower);
        if amount <= 0 {
            return Err(Error::AmountNotPositive);
        }
        let debt = self.book.get_debt(borrower);
        if debt + amount > BORROW_LIMIT {
            return Err(Error::BorrowLimitExceeded);
        }
        self.book.set_debt(borrower, debt + amount);
        Ok(())
    }

    /// The recorded debt of `borrower`, zero if none.
    pub fn debt(&self, borrower: Addr) -> (r: i128)
        ensures
            r == self.book().owed(borrower),
    {
        self.book.get_debt(borrower)
    }

    /// What `borrower` owes now, interest since the last accrual included.
    pub fn debt_after_accrual(&self, env: &Env, borrower: Addr) -> (r: i128)
        requires
            self.book().projection_fits(borrower, env.sequence),
        ensures
            r == self.book().projected(borrower, env.sequence),
    {
        projected_debt(&self.book, env, borrower)
    }
}

} // verus!
