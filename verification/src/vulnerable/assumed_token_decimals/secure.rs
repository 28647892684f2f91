//! Multi-asset deposits normalised by each token's registered precision.
use vstd::prelude::*;
use crate::host::{Addr, Env, Error, Sym, env_after};
use crate::math::{div_trunc, pow10, ten_pow, lemma_ten_pow_bounds, lemma_ten_pow_add, lemma_div_trunc_multiple};
use crate::table::{Table, value_or};

verus! {

/// The precision to which every amount is normalised.
pub const CANONICAL_DECIMALS: u32 = 9;

/// What `amount`, given with `decimals` decimals, is at 9 decimals: scaled up
/// for fewer decimals, divided (rounding toward zero) for more.
pub open spec fn normalised(amount: int, decimals: nat) -> int {
    if decimals <= 9 {
        amount * ten_pow((9 - decimals) as nat)
    } else {
        div_trunc(amount, ten_pow((decimals - 9) as nat))
    }
}

/// The inputs on which `normalise` computes without overflow.
pub open spec fn normalise_defined(amount: int, decimals: nat) -> bool {
    if decimals <= 9 {
        i128::MIN <= amount * ten_pow((9 - decimals) as nat) <= i128::MAX
    } else {
        decimals - 9 <= 38
    }
}

/// Rescales `amount` from `decimals` decimals to `CANONICAL_DECIMALS`.
pub fn normalise(amount: i128, decimals: u32) -> (r: i128)
    requires
        normalise_defined(amount as int, decimals as nat),
    ensures
        r == normalised(amount as int, decimals as nat),
{
    if decimals <= CANONICAL_DECIMALS {
        amount * pow10(CANONICAL_DECIMALS - decimals)
    } else {
        let p = pow10(decimals - CANONICAL_DECIMALS);
        proof {
            lemma_ten_pow_bounds((decimals - 9) as nat);
        }
        amount / p
    }
}

/// Equal human amounts normalise to equal values whatever the token's
/// precision: `human` whole units, written with `decimals` decimals, are
/// `human` units at 9 decimals.
pub proof fn law_normalise_ignores_precision(human: int, decimals: nat)
    ensures
        normalised(human * ten_pow(decimals), decimals) == human * ten_pow(9),
{
    if decimals <= 9 {
        lemma_ten_pow_add(decimals, (9 - decimals) as nat);
        vstd::arithmetic::mul::lemma_mul_is_associative(human, ten_pow(decimals), ten_pow((9 - decimals) as nat));
    } else {
        lemma_ten_pow_add(9, (decimals - 9) as nat);
        lemma_ten_pow_bounds((decimals - 9) as nat);
        vstd::arithmetic::mul::lemma_mul_is_associative(human, ten_pow(9), ten_pow((decimals - 9) as nat));
        lemma_div_trunc_multiple(human * ten_pow(9), ten_pow((decimals - 9) as nat));
    }
}

/// Deposits normalised by the precision registered for each token.
pub struct SecureMultiAsset {
    decimals: Table<Sym, u32>,
    balances: Table<(Sym, Addr), i128>,
    totals: Table<Sym, i128>,
}

impl SecureMultiAsset {
    /// The registered precision of each token.
    pub closed spec fn decimals(&self) -> Map<Sym, u32> {
        self.decimals@
    }

    /// The normalised balance of each (token, user) pair.
    pub closed spec fn balances(&self) -> Map<(Sym, Addr), i128> {
        self.balances@
    }

    /// The normalised value deposited of each token.
    pub closed spec fn totals(&self) -> Map<Sym, i128> {
        self.totals@
    }

    /// A contract with no tokens registered and no deposits.
    pub fn new() -> (c: Self)
        ensures
            c.decimals() == Map::<Sym, u32>::empty(),
            c.balances() == Map::<(Sym, Addr), i128>::empty(),
            c.totals() == Map::<Sym, i128>::empty(),
    {
        SecureMultiAsset { decimals: Table::new(), balances: Table::new(), totals: Table::new() }
    }

    /// Records that `token` has `decimals` decimals.
    pub fn register_token(&mut self, token: Sym, decimals: u32)
        ensures
            final(self).decimals() == old(self).decimals().insert(token, decimals),
            final(self).balances() == old(self).balances(),
            final(self).totals() == old(self).totals(),
    {
        self.decimals.set(token, decimals);
    }

    /// Credits `actor` and `token` with `amount` normalised by the token's
    /// registered precision. Refused when `amount` is not positive, when the
    /// token is not registered, or when the normalised amount is not positive.
    pub fn deposit(&mut self, env: &mut Env, actor: Addr, token: Sym, amount: i128) -> (r: Result<(), Error>)
        requires
            amount > 0 && old(self).decimals().contains_key(token) ==> {
                let n = normalised(amount as int, old(self).decimals()[token] as nat);
                &&& normalise_defined(amount as int, old(self).decimals()[token] as nat)
                &&& n > 0 ==> value_or(old(self).balances(), (token, actor), 0i128) + n <= i128::MAX
                &&& n > 0 ==> value_or(old(self).totals(), token, 0i128) + n <= i128::MAX
            },
        ensures
            r is Err ==> *final(self) == *old(self),
            amount <= 0 ==> r == Err::<(), Error>(Error::AmountNotPositive),
            amount > 0 && !old(self).decimals().contains_key(token) ==> r == Err::<(), Error>(Error::TokenNotRegistered),
            amount > 0 && old(self).decimals().contains_key(token) ==> {
                let n = normalised(amount as int, old(self).decimals()[token] as nat);
                &&& n <= 0 ==> r == Err::<(), Error>(Error::NormalisedZero)
                &&& n > 0 ==> {
                    &&& r is Ok
                    &&& env_after(*old(env), *final(env), seq![actor], seq![])
                    &&& final(self).decimals() == old(self).decimals()
                    &&& final(self).balances() == old(self).balances().insert(
                        (token, actor),
                        (value_or(old(self).balances(), (token, actor), 0i128) + n) as i128,
                    )
                    &&& final(self).totals() == old(self).totals().insert(
                        token,
                        (value_or(old(self).totals(), token, 0i128) + n) as i128,
                    )
                }
            },
    {
        env.require_auth(actor);
        if amount <= 0 {
            return Err(Error::AmountNotPositive);
        }
        let decimals = match self.decimals.get(&token) {
            Some(d) => *d,
            None => {
                return Err(Error::TokenNotRegistered);
            },
        };
        let n = normalise(amount, decimals);
        if n <= 0 {
            return Err(Error::NormalisedZero);
        }
        let prev = self.balances.amount(&(token, actor));
        self.balances.set((token, actor), prev + n);
        let tv = self.totals.amount(&token);
        self.totals.set(token, tv + n);
        Ok(())
    }

    /// The normalised balance of `user` in `token`, zero if none.
    pub fn balance(&self, token: Sym, user: Addr) -> (r: i128)
        ensures
            r == value_or(self.balances(), (token, user), 0i128),
    {
        self.balances.amount(&(token, user))
    }

    /// The normalised value deposited of `token`, zero if none.
    pub fn total_value(&self, token: Sym) -> (r: i128)
        ensures
            r == value_or(self.totals(), token, 0i128),
    {
        self.totals.amount(&token)
    }
}

} // verus!
