//! Multi-asset deposits normalised by a fixed decimal scale.
use vstd::prelude::*;
use crate::host::{Addr, Env, Error, Sym, env_after};
use crate::math::{pow10, ten_pow, lemma_ten_pow_bounds};
use crate::table::{Table, value_or};

pub mod secure;

verus! {

/// The decimal precision assumed of every token.
pub const ASSUMED_DECIMALS: u32 = 7;

/// `amount` scaled by 10 to the `ASSUMED_DECIMALS`, whatever the token's own
/// precision.
pub fn normalise_vulnerable(amount: i128) -> (r: i128)
    requires
        i128::MIN <= amount * ten_pow(7) <= i128::MAX,
    ensures
        r == amount * ten_pow(7),
{
    amount * pow10(ASSUMED_DECIMALS)
}

/// Deposits credited as normalised values per (token, user) and per token.
pub struct VulnerableMultiAsset {
    balances: Table<(Sym, Addr), i128>,
    totals: Table<Sym, i128>,
}

impl VulnerableMultiAsset {
    /// The normalised balance of each (token, user) pair.
    pub closed spec fn balances(&self) -> Map<(Sym, Addr), i128> {
        self.balances@
    }

    /// The normalised value deposited of each token.
    pub closed spec fn totals(&self) -> Map<Sym, i128> {
        self.totals@
    }

    /// A contract with no deposits.
    pub fn new() -> (c: Self)
        ensures
            c.balances() == Map::<(Sym, Addr), i128>::empty(),
            c.totals() == Map::<Sym, i128>::empty(),
    {
        VulnerableMultiAsset { balances: Table::new(), totals: Table::new() }
    }

    /// Credits `actor` and `token` with `amount` scaled by the assumed 7
    /// decimals; `actor` must authorize and `amount` be positive.
    pub fn deposit(&mut self, env: &mut Env, actor: Addr, token: Sym, amount: i128) -> (r: Result<(), Error>)
        requires
            amount > 0 ==> {
                &&& amount * ten_pow(7) <= i128::MAX
                &&& value_or(old(self).balances(), (token, actor), 0i128) + amount * ten_pow(7) <= i128::MAX
                &&& value_or(old(self).totals(), token, 0i128) + amount * ten_pow(7) <= i128::MAX
            },
        ensures
            r is Ok <==> amount > 0,
            r is Err ==> r == Err::<(), Error>(Error::AmountNotPositive) && *final(self) == *old(self),
            r is Ok ==> {
                &&& env_after(*old(env), *final(env), seq![actor], seq![])
                &&& final(self).balances() == old(self).balances().insert(
                    (token, actor),
                    (value_or(old(self).balances(), (token, actor), 0i128) + amount * ten_pow(7)) as i128,
                )
                &&& final(self).totals() == old(self).totals().insert(
                    token,
                    (value_or(old(self).totals(), token, 0i128) + amount * ten_pow(7)) as i128,
                )
            },
    {
        env.require_auth(actor);
        if amount <= 0 {
            return Err(Error::AmountNotPositive);
        }
        proof {
            lemma_ten_pow_bounds(7);
            assert(amount * ten_pow(7) >= amount) by (nonlinear_arith)
                requires amount > 0, ten_pow(7) >= 1;
        }
        let normalised = normalise_vulnerable(amount);
        let prev = self.balances.amount(&(token, actor));
        self.balances.set((token, actor), prev + normalised);
        let tv = self.totals.amount(&token);
        self.totals.set(token, tv + normalised);
        Ok(())
    }

    /// The normalised balance of `user` in `token`, zero if none.
    pub fn balance(&self, token: Sym, user: Addr) -> (r: i128)
        ensures
            r == value_or(self.balances(), (token, user), 0i128),
    {
        self.balances.amount(&(token, user))
    }

    /// The normalised value deposited of `token`, zero if none.
    pub fn total_value(&self, token: Sym) -> (r: i128)
        ensures
            r == value_or(self.totals(), token, 0i128),
    {
        self.totals.amount(&token)
    }
}

} // verus!
