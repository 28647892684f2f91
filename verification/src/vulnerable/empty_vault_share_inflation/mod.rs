//! A share vault whose first deposits can be diluted by donations.
use vstd::prelude::*;
use crate::host::{Addr, Env, Error, env_after};
use crate::math::div_trunc;
use crate::table::{Table, value_or};

pub mod secure;

verus! {

/// Total shares, total assets and the shares of each holder.
pub struct ShareBook {
    pub total_shares: i128,
    pub total_assets: i128,
    pub shares: Table<Addr, i128>,
}

impl ShareBook {
    /// The shares of `a`, zero if none.
    pub open spec fn shares_of(&self, a: Addr) -> int {
        value_or(self.shares@, a, 0i128) as int
    }

    /// Whether issuing `minted` shares to `actor` against `amount` assets
    /// stays within `i128`.
    pub open spec fn issue_fits(&self, actor: Addr, amount: i128, minted: int) -> bool {
        &&& self.total_shares + minted <= i128::MAX
        &&& self.total_assets + amount <= i128::MAX
        &&& self.shares_of(actor) + minted <= i128::MAX
    }

    /// A book with nothing issued.
    pub fn new() -> (b: Self)
        ensures
            b.total_shares == 0,
            b.total_assets == 0,
            b.shares@ == Map::<Addr, i128>::empty(),
    {
        ShareBook { total_shares: 0, total_assets: 0, shares: Table::new() }
    }

    /// Issues `minted` shares to `actor` for `amount` assets.
    pub fn issue(&mut self, actor: Addr, amount: i128, minted: i128)
        requires
            amount > 0,
            minted > 0,
            old(self).issue_fits(actor, amount, minted as int),
        ensures
            final(self).total_shares == old(self).total_shares + minted,
            final(self).total_assets == old(self).total_assets + amount,
            final(self).shares@ == old(self).shares@.insert(actor, (old(self).shares_of(actor) + minted) as i128),
    {
        self.total_shares = self.total_shares + minted;
        self.total_assets = self.total_assets + amount;
        let held = self.shares.amount(&actor);
        self.shares.set(actor, held + minted);
    }

    /// Adds `amount` to the assets without issuing shares; refused for a
    /// non-positive amount.
    pub fn donate(&mut self, amount: i128) -> (r: Result<(), Error>)
        requires
            amount > 0 ==> old(self).total_assets + amount <= i128::MAX,
        ensures
            amount <= 0 <==> r is Err,
            r is Err ==> r == Err::<(), Error>(Error::AmountNotPositive) && *final(self) == *old(self),
            r is Ok ==> final(self).total_assets == old(self).total_assets + amount
                && final(self).total_shares == old(self).total_shares && final(self).shares@ == old(self).shares@,
    {
        if amount <= 0 {
            return Err(Error::AmountNotPositive);
        }
        self.total_assets = self.total_assets + amount;
        Ok(())
    }
}

/// The shares `amount` buys in an empty-or-not vault: `amount` itself when no
/// shares exist, else in proportion to the shares per asset.
pub open spec fn vulnerable_shares(ts: i128, ta: i128, amount: i128) -> int {
    if ts == 0 {
        amount as int
    } else {
        div_trunc(amount * ts, ta as int)
    }
}

/// A vault that prices shares from its raw totals.
pub struct VulnerableVault {
    book: ShareBook,
}

impl VulnerableVault {
    pub closed spec fn book(&self) -> ShareBook {
        self.book
    }

    pub closed spec fn total_shares_of(&self) -> i128 {
        self.book.total_shares
    }

    pub closed spec fn total_assets_of(&self) -> i128 {
        self.book.total_assets
    }

    pub closed spec fn share_map(&self) -> Map<Addr, i128> {
        self.book.shares@
    }

    /// A vault with nothing deposited.
    pub fn new() -> (c: Self)
        ensures
            c.total_shares_of() == 0,
            c.total_assets_of() == 0,
            c.share_map() == Map::<Addr, i128>::empty(),
    {
        VulnerableVault { book: ShareBook::new() }
    }

    /// Issues to `actor`, who must authorize, the shares `amount` buys.
    /// Refused for a non-positive amount or when no share would be issued.
    pub fn deposit(&mut self, env: &mut Env, actor: Addr, amount: i128) -> (r: Result<(), Error>)
        requires
            amount > 0 && old(self).total_shares_of() != 0 ==> {
                &&& old(self).total_assets_of() > 0
                &&& i128::MIN <= amount * old(self).total_shares_of() <= i128::MAX
            },
            amount > 0 ==> {
                let n = vulnerable_shares(old(self).total_shares_of(), old(self).total_assets_of(), amount);
                n > 0 ==> old(self).book().issue_fits(actor, amount, n)
            },
        ensures
            r is Err ==> *final(self) == *old(self),
            amount <= 0 ==> r == Err::<(), Error>(Error::AmountNotPositive),
            amount > 0 ==> {
                let n = vulnerable_shares(old(self).total_shares_of(), old(self).total_assets_of(), amount);
                &&& n <= 0 ==> r == Err::<(), Error>(Error::ZeroShares)
                &&& n > 0 ==> {
                    &&& r is Ok
                    &&& env_after(*old(env), *final(env), seq![actor], seq![])
                    &&& final(self).total_shares_of() == old(self).total_shares_of() + n
                    &&& final(self).total_assets_of() == old(self).total_assets_of() + amount
                    &&& final(self).share_map() == old(self).share_map().insert(
                        actor,
                        (value_or(old(self).share_map(), actor, 0i128) + n) as i128,
                    )
                }
            },
    {
        env.require_auth(actor);
        if amount <= 0 {
            return Err(Error::AmountNotPositive);
        }
        let ts = self.book.total_shares;
        let ta = self.book.total_assets;
        let new_shares = if ts == 0 {
            amount
        } else {
            amount * ts / ta
        };
        if new_shares <= 0 {
            return Err(Error::ZeroShares);
        }
        self.book.issue(actor, amount, new_shares);
        Ok(())
    }

    /// Adds `amount` to the assets without issuing shares; refused for a
    /// non-positive amount.
    pub fn donate(&mut self, amount: i128) -> (r: Result<(), Error>)
        requires
            amount > 0 ==> old(self).total_assets_of() + amount <= i128::MAX,
        ensures
            amount <= 0 <==> r is Err,
            r is Err ==> r == Err::<(), Error>(Error::AmountNotPositive) && *final(self) == *old(self),
            r is Ok ==> final(self).total_assets_of() == old(self).total_assets_of() + amount
                && final(self).total_shares_of() == old(self).total_shares_of()
                && final(self).share_map() == old(self).share_map(),
    {
        self.book.donate(amount)
    }

    /// The shares of `user`, zero if none.
    pub fn shares_of(&self, user: Addr) -> (r: i128)
        ensures
            r == value_or(self.share_map(), user, 0i128),
    {
        self.book.shares.amount(&user)
    }

    /// The total shares issued.
    pub fn total_shares(&self) -> (r: i128)
        ensures
            r == self.total_shares_of(),
    {
        self.book.total_shares
    }

    /// The total assets held.
    pub fn total_assets(&self) -> (r: i128)
        ensures
            r == self.total_assets_of(),
    {
        self.book.total_assets
    }
}

} // verus!
