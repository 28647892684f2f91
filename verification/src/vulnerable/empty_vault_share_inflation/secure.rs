//! A share vault that prices shares with a virtual offset.
use vstd::prelude::*;
use crate::host::{Addr, Env, Error, env_after};
use crate::math::div_trunc;
use crate::table::value_or;
use super::ShareBook;

verus! {

/// The virtual shares and assets added to both totals when pricing.
pub const VIRTUAL_OFFSET: i128 = 1_000;

/// The shares `amount` buys with both totals raised by `VIRTUAL_OFFSET`.
pub open spec fn offset_shares(ts: i128, ta: i128, amount: i128) -> int {
    div_trunc(amount * (ts + VIRTUAL_OFFSET), ta + VIRTUAL_OFFSET)
}

/// A deposit buys shares at the offset price, rounded down: the shares
/// issued times the offset assets do not exceed the amount times the offset
/// shares, and one share more would; at a price of one share per asset
/// (equal totals) a deposit buys exactly its amount in shares.
pub proof fn law_offset_price(ts: i128, ta: i128, amount: i128)
    requires
        amount >= 0,
        ts >= 0,
        ta >= 0,
    ensures
        offset_shares(ts, ta, amount) * (ta + 1000) <= amount * (ts + 1000),
        amount * (ts + 1000) < (offset_shares(ts, ta, amount) + 1) * (ta + 1000),
        ts == ta ==> offset_shares(ts, ta, amount) == amount,
{
    let a: int = amount * (ts + 1000);
    let d: int = ta + 1000;
    assert(a >= 0) by (nonlinear_arith)
        requires a == amount * (ts + 1000), amount >= 0, ts >= 0;
    assert(offset_shares(ts, ta, amount) == a / d);
    vstd::arithmetic::div_mod::lemma_fundamental_div_mod(a, d);
    let q = a / d;
    assert(q * d <= a < (q + 1) * d) by (nonlinear_arith)
        requires a == d * q + a % d, 0 <= a % d < d;
    if ts == ta {
        crate::math::lemma_div_trunc_multiple(amount as int, d);
    }
}

/// A vault whose share price counts a virtual offset.
pub struct SecureVault {
    book: ShareBook,
}

impl SecureVault {
    pub closed spec fn book(&self) -> ShareBook {
        self.book
    }

    pub closed spec fn total_shares_of(&self) -> i128 {
        self.book.total_shares
    }

    pub closed spec fn total_assets_of(&self) -> i128 {
        self.book.total_assets
    }

    pub closed spec fn share_map(&self) -> Map<Addr, i128> {
        self.book.shares@
    }

    /// A vault with nothing deposited.
    pub fn new() -> (c: Self)
        ensures
            c.total_shares_of() == 0,
            c.total_assets_of() == 0,
            c.share_map() == Map::<Addr, i128>::empty(),
    {
        SecureVault { book: ShareBook::new() }
    }

    /// Issues to `actor`, who must authorize, the shares `amount` buys at the
    /// offset price. Refused for a non-positive amount or when no share would
    /// be issued.
    pub fn deposit(&mut self, env: &mut Env, actor: Addr, amount: i128) -> (r: Result<(), Error>)
        requires
            amount > 0 ==> {
                &&& old(self).total_shares_of() + VIRTUAL_OFFSET <= i128::MAX
                &&& old(self).total_assets_of() + VIRTUAL_OFFSET <= i128::MAX
                &&& old(self).total_assets_of() + VIRTUAL_OFFSET > 0
                &&& i128::MIN <= amount * (old(self).total_shares_of() + VIRTUAL_OFFSET) <= i128::MAX
            },
            amount > 0 ==> {
                let n = offset_shares(old(self).total_shares_of(), old(self).total_assets_of(), amount);
                n > 0 ==> old(self).book().issue_fits(actor, amount, n)
            },
        ensures
            r is Err ==> *final(self) == *old(self),
            amount <= 0 ==> r == Err::<(), Error>(Error::AmountNotPositive),
            amount > 0 ==> {
                let n = offset_shares(old(self).total_shares_of(), old(self).total_assets_of(), amount);
                &&& n <= 0 ==> r == Err::<(), Error>(Error::ZeroShares)
                &&& n > 0 ==> {
                    &&& r is Ok
                    &&& env_after(*old(env), *final(env), seq![actor], seq![])
                    &&& final(self).total_shares_of() == old(self).total_shares_of() + n
                    &&& final(self).total_assets_of() == old(self).total_assets_of() + amount
                    &&& final(self).share_map() == old(self).share_map().insert(
                        actor,
                        (value_or(old(self).share_map(), actor, 0i128) + n) as i128,
                    )
                }
            },
    {
        env.require_auth(actor);
        if amount <= 0 {
            return Err(Error::AmountNotPositive);
        }
        let ts = self.book.total_shares;
        let ta = self.book.total_assets;
        let new_shares = amount * (ts + VIRTUAL_OFFSET) / (ta + VIRTUAL_OFFSET);
        if new_shares <= 0 {
            return Err(Error::ZeroShares);
        }
        self.book.issue(actor, amount, new_shares);
        Ok(())
    }

    /// Adds `amount` to the assets without issuing shares; refused for a
    /// non-positive amount.
    pub fn donate(&mut self, amount: i128) -> (r: Result<(), Error>)
        requires
            amount > 0 ==> old(self).total_assets_of() + amount <= i128::MAX,
        ensures
            amount <= 0 <==> r is Err,
            r is Err ==> r == Err::<(), Error>(Error::AmountNotPositive) && *final(self) == *old(self),
            r is Ok ==> final(self).total_assets_of() == old(self).total_assets_of() + amount
                && final(self).total_shares_of() == old(self).total_shares_of()
                && final(self).share_map() == old(self).share_map(),
    {
        self.book.donate(amount)
    }

    /// The shares of `user`, zero if none.
    pub fn shares_of(&self, user: Addr) -> (r: i128)
        ensures
            r == value_or(self.share_map(), user, 0i128),
    {
        self.book.shares.amount(&user)
    }

    /// The total shares issued.
    pub fn total_shares(&self) -> (r: i128)
        ensures
            r == self.total_shares_of(),
    {
        self.book.total_shares
    }

    /// The total assets held.
    pub fn total_assets(&self) -> (r: i128)
        ensures
            r == self.total_assets_of(),
    {
        self.book.total_assets
    }
}

} // verus!
