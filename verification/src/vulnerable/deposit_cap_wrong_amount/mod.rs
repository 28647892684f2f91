//! A capped vault that checks the requested amount against the cap while a
//! fee-charging token delivers less.
use vstd::prelude::*;
use crate::host::{Addr, Env, Error, env_after};
use crate::math::div_trunc;
use crate::table::{Table, value_or};

pub mod secure;

verus! {

/// The most the vault credits.
pub const DEPOSIT_CAP: i128 = 100;

/// What a transfer of `amount` delivers: 90% of it, rounded toward zero.
pub open spec fn delivered(amount: i128) -> int {
    div_trunc(amount * 90, 100)
}

/// `bal` after `from` sends `amount` and `to` receives what is delivered;
/// the sender's balance is written first.
pub open spec fn fee_moved(bal: Map<Addr, i128>, from: Addr, to: Addr, amount: i128) -> Map<Addr, i128> {
    let b1 = bal.insert(from, (value_or(bal, from, 0i128) - amount) as i128);
    b1.insert(to, (value_or(b1, to, 0i128) + delivered(amount)) as i128)
}

/// The token contract a vault accepts, as the vault calls it: a balance per
/// address and a transfer, each decided by the token's ledger alone.
pub trait Token: Sized {
    /// What the token's state holds.
    type Ledger;

    spec fn ledger(&self) -> Self::Ledger;

    /// The balance of `id` in `l`.
    spec fn balance_in(l: Self::Ledger, id: Addr) -> int;

    /// Whether a transfer of `amount` from `from` to `to` on `l` stays
    /// within the token's machine limits.
    spec fn transfer_fits(l: Self::Ledger, from: Addr, to: Addr, amount: i128) -> bool;

    /// The ledger after a transfer of `amount` from `from` to `to` on `l`,
    /// and its outcome.
    spec fn after_transfer(l: Self::Ledger, from: Addr, to: Addr, amount: i128) -> (Self::Ledger, Result<(), Error>);

    /// The balance of `id`.
    fn balance(&self, id: Addr) -> (r: i128)
        ensures
            r == Self::balance_in(self.ledger(), id),
    ;

    /// Moves `amount` from `from` to `to` as the token decides.
    fn transfer(&mut self, from: Addr, to: Addr, amount: i128) -> (r: Result<(), Error>)
        requires
            Self::transfer_fits(old(self).ledger(), from, to, amount),
        ensures
            (final(self).ledger(), r) == Self::after_transfer(old(self).ledger(), from, to, amount),
    ;

    /// A copy of the token's state, which the host keeps so that it can put
    /// the state back when the invocation that called the token fails.
    fn snapshot(&self) -> (r: Self)
        ensures
            r.ledger() == self.ledger(),
    ;
}

/// What the balance of `vault` grows by when `user` sends it `amount` of a
/// token whose ledger is `l`.
pub open spec fn received<T: Token>(l: T::Ledger, user: Addr, vault: Addr, amount: i128) -> int {
    T::balance_in(T::after_transfer(l, user, vault, amount).0, vault) - T::balance_in(l, vault)
}

/// Whether a deposit of `amount` by `user` into `vault` keeps every
/// amount the vault computes within `i128`, given the credited `total`.
pub open spec fn deposit_fits<T: Token>(l: T::Ledger, total: i128, user: Addr, vault: Addr, amount: i128) -> bool {
    &&& T::transfer_fits(l, user, vault, amount)
    &&& T::after_transfer(l, user, vault, amount).1 is Ok ==> {
        &&& i128::MIN <= received::<T>(l, user, vault, amount) <= i128::MAX
        &&& i128::MIN <= total + received::<T>(l, user, vault, amount) <= i128::MAX
    }
}

/// A token that keeps a 10% fee on every transfer.
pub struct FeeToken {
    balances: Table<Addr, i128>,
}

impl FeeToken {
    pub closed spec fn balances(&self) -> Map<Addr, i128> {
        self.balances@
    }

    /// The balance of `a`, zero if none.
    pub open spec fn bal(&self, a: Addr) -> int {
        value_or(self.balances(), a, 0i128) as int
    }

    /// A token with no balances.
    pub fn new() -> (c: Self)
        ensures
            c.balances() == Map::<Addr, i128>::empty(),
    {
        FeeToken { balances: Table::new() }
    }

    /// Adds `amount` to the balance of `to`.
    pub fn mint(&mut self, to: Addr, amount: i128)
        requires
            i128::MIN <= old(self).bal(to) + amount <= i128::MAX,
        ensures
            final(self).balances() == old(self).balances().insert(to, (old(self).bal(to) + amount) as i128),
    {
        let current = self.balances.amount(&to);
        self.balances.set(to, current + amount);
    }
}

impl Token for FeeToken {
    type Ledger = Map<Addr, i128>;

    open spec fn ledger(&self) -> Map<Addr, i128> {
        self.balances()
    }

    open spec fn balance_in(l: Map<Addr, i128>, id: Addr) -> int {
        value_or(l, id, 0i128) as int
    }

    /// A transfer that the balance of `from` covers keeps both balances
    /// within `i128`.
    open spec fn transfer_fits(l: Map<Addr, i128>, from: Addr, to: Addr, amount: i128) -> bool {
        let b1 = l.insert(from, (value_or(l, from, 0i128) - amount) as i128);
        value_or(l, from, 0i128) >= amount ==> {
            &&& amount >= 0
            &&& amount * 90 <= i128::MAX
            &&& value_or(l, from, 0i128) - amount >= i128::MIN
            &&& value_or(b1, to, 0i128) + delivered(amount) <= i128::MAX
        }
    }

    /// Refused, changing nothing, when `from` holds less than `amount`;
    /// otherwise `to` is credited with 90% of it.
    open spec fn after_transfer(l: Map<Addr, i128>, from: Addr, to: Addr, amount: i128) -> (Map<Addr, i128>, Result<(), Error>) {
        if value_or(l, from, 0i128) < amount {
            (l, Err(Error::InsufficientBalance))
        } else {
            (fee_moved(l, from, to, amount), Ok(()))
        }
    }

    fn balance(&self, id: Addr) -> (r: i128) {
        self.balances.amount(&id)
    }

    fn transfer(&mut self, from: Addr, to: Addr, amount: i128) -> (r: Result<(), Error>) {
        let from_bal = self.balances.amount(&from);
        if from_bal < amount {
            return Err(Error::InsufficientBalance);
        }
        let received = amount * 90 / 100;
        self.balances.set(from, from_bal - amount);
        let to_bal = self.balances.amount(&to);
        self.balances.set(to, to_bal + received);
        Ok(())
    }

    fn snapshot(&self) -> (r: Self) {
        FeeToken { balances: self.balances.snapshot() }
    }
}

/// The total credited and the token accepted.
pub struct DepositCapWrongAmount {
    total_credited: i128,
    token: Option<Addr>,
}

impl DepositCapWrongAmount {
    pub closed spec fn total(&self) -> i128 {
        self.total_credited
    }

    pub closed spec fn token(&self) -> Option<Addr> {
        self.token
    }

    /// A vault with nothing credited and no token.
    pub fn new() -> (c: Self)
        ensures
            c.total() == 0,
            c.token() is None,
    {
        DepositCapWrongAmount { total_credited: 0, token: None }
    }

    /// Sets the token accepted.
    pub fn initialize(&mut self, token: Addr)
        ensures
            final(self).token() == Some(token),
            final(self).total() == old(self).total(),
    {
        self.token = Some(token);
    }

    /// Takes `amount` of the token contract `token_contract` from `user`,
    /// who must authorize, into this vault, and credits what the vault's
    /// balance grew by. The cap is checked against `amount` alone. Refused
    /// for a non-positive amount, an amount above the cap, before
    /// initialization, or when the token refuses the transfer, with the
    /// token's own error.
    pub fn deposit<T: Token>(&mut self, env: &mut Env, token_contract: &mut T, user: Addr, amount: i128) -> (r: Result<(), Error>)
        requires
            0 < amount <= DEPOSIT_CAP && old(self).token() is Some ==> deposit_fits::<T>(
                old(token_contract).ledger(),
                old(self).total(),
                user,
                old(env).current_contract,
                amount,
            ),
        ensures
            r is Err ==> *final(self) == *old(self) && final(token_contract).ledger() == old(token_contract).ledger(),
            amount <= 0 ==> r == Err::<(), Error>(Error::AmountNotPositive),
            amount > DEPOSIT_CAP ==> r == Err::<(), Error>(Error::DepositCapExceeded),
            0 < amount <= DEPOSIT_CAP && old(self).token() is None ==> r == Err::<(), Error>(Error::NotInitialized),
            0 < amount <= DEPOSIT_CAP && old(self).token() is Some ==> {
                let vault = old(env).current_contract;
                let sent = T::after_transfer(old(token_contract).ledger(), user, vault, amount);
                &&& sent.1 is Err ==> r == sent.1
                &&& sent.1 is Ok ==> {
                    &&& r is Ok
                    &&& env_after(*old(env), *final(env), seq![user], seq![])
                    &&& final(token_contract).ledger() == sent.0
                    &&& final(self).total() == old(self).total() + received::<T>(old(token_contract).ledger(), user, vault, amount)
                    &&& final(self).token() == old(self).token()
                }
            },
    {
        env.require_auth(user);
        if amount <= 0 {
            return Err(Error::AmountNotPositive);
        }
        if amount > DEPOSIT_CAP {
            return Err(Error::DepositCapExceeded);
        }
        if self.token.is_none() {
            return Err(Error::NotInitialized);
        }
        let vault = env.current_contract;
        let saved = token_contract.snapshot();
        let pre = token_contract.balance(vault);
        if let Err(e) = token_contract.transfer(user, vault, amount) {
            *token_contract = saved;
            return Err(e);
        }
        let post = token_contract.balance(vault);
        let received = post - pre;
        self.credit_received(received);
        Ok(())
    }

    /// Credits `received`, what the vault's balance grew by in a deposit,
    /// whatever token delivered it, without checking it against the cap.
    pub fn credit_received(&mut self, received: i128)
        requires
            i128::MIN <= old(self).total() + received <= i128::MAX,
        ensures
            final(self).total() == old(self).total() + received,
            final(self).token() == old(self).token(),
    {
        self.total_credited = self.total_credited + received;
    }

    /// The total credited.
    pub fn total_credited(&self) -> (r: i128)
        ensures
            r == self.total(),
    {
        self.total_credited
    }
}

} // verus!
