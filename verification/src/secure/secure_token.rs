//! A token with an administrator who mints, and holders who burn and transfer.
use vstd::prelude::*;
use crate::ledger::{moved, total_of, lemma_total_insert};
use crate::host::{Addr, Env, Error, Event, Transfer, TtlExtension, env_after_all};
use crate::table::{Table, value_or};

verus! {

/// Balances per holder and the total supply; minting needs the admin.
pub struct SecureToken {
    admin: Option<Addr>,
    balances: Table<Addr, i128>,
    supply: i128,
}

impl SecureToken {
    pub closed spec fn admin(&self) -> Option<Addr> {
        self.admin
    }

    pub closed spec fn balances(&self) -> Map<Addr, i128> {
        self.balances@
    }

    pub closed spec fn supply(&self) -> i128 {
        self.supply
    }

    /// The balance of `a`, zero if none.
    pub open spec fn bal(&self, a: Addr) -> int {
        value_or(self.balances(), a, 0i128) as int
    }

    /// The supply is the sum of all balances.
    pub open spec fn supply_matches(&self) -> bool {
        &&& self.balances().dom().finite()
        &&& self.supply() == total_of(self.balances())
    }

    /// A token with no admin, no holders and no supply.
    pub fn new() -> (c: Self)
        ensures
            c.supply_matches(),
            c.admin() is None,
            c.balances() == Map::<Addr, i128>::empty(),
            c.supply() == 0,
    {
        let c = SecureToken { admin: None, balances: Table::new(), supply: 0 };
        assert(c.balances().dom() =~= Set::<Addr>::empty());
        c
    }

    /// Sets the admin, once.
    pub fn initialize(&mut self, admin: Addr) -> (r: Result<(), Error>)
        ensures
            old(self).supply_matches() ==> final(self).supply_matches(),
            old(self).admin() is Some <==> r is Err,
            r is Err ==> r == Err::<(), Error>(Error::AlreadyInitialized),
            r is Err ==> *final(self) == *old(self),
            r is Ok ==> final(self).admin() == Some(admin) && final(self).balances() == old(self).balances()
                && final(self).supply() == old(self).supply(),
    {
        if self.admin.is_some() {
            return Err(Error::AlreadyInitialized);
        }
        self.admin = Some(admin);
        Ok(())
    }

    /// Creates `amount` new tokens for `to` and publishes a `Mint` event; the
    /// admin must authorize. Refused for a non-positive amount, before initialization, or where the
    /// balance or the supply would overflow.
    pub fn mint(&mut self, env: &mut Env, to: Addr, amount: i128) -> (r: Result<(), Error>)
        ensures
            old(self).supply_matches() ==> final(self).supply_matches(),
            r is Err ==> *final(self) == *old(self),
            amount <= 0 ==> r == Err::<(), Error>(Error::AmountNotPositive),
            amount > 0 && old(self).admin() is None ==> r == Err::<(), Error>(Error::NotInitialized),
            amount > 0 && old(self).admin() is Some ==> {
                let ok = old(self).bal(to) + amount <= i128::MAX && old(self).supply() + amount <= i128::MAX;
                &&& !ok ==> r == Err::<(), Error>(Error::Overflow)
                &&& ok ==> {
                    &&& r is Ok
                    &&& env_after_all(*old(env), *final(env), seq![old(self).admin()->0], seq![], seq![Event::Mint { to, amount }], seq![])
                    &&& final(self).admin() == old(self).admin()
                    &&& final(self).balances() == old(self).balances().insert(to, (old(self).bal(to) + amount) as i128)
                    &&& final(self).supply() == old(self).supply() + amount
                }
            },
    {
        if amount <= 0 {
            return Err(Error::AmountNotPositive);
        }
        let admin = match self.admin {
            Some(a) => a,
            None => {
                return Err(Error::NotInitialized);
            },
        };
        env.require_auth(admin);
        let bal = self.balances.amount(&to);
        let new_bal = match bal.checked_add(amount) {
            Some(v) => v,
            None => {
                return Err(Error::Overflow);
            },
        };
        let new_supply = match self.supply.checked_add(amount) {
            Some(v) => v,
            None => {
                return Err(Error::Overflow);
            },
        };
        proof {
            if old(self).supply_matches() {
                lemma_total_insert(old(self).balances(), to, new_bal);
            }
        }
        self.balances.set(to, new_bal);
        self.supply = new_supply;
        env.publish(Event::Mint { to, amount });
        proof {
            assert(env.auths@ =~= old(env).auths@ + seq![admin]);
            assert(env.transfers@ =~= old(env).transfers@ + Seq::<Transfer>::empty());
            assert(env.events@ =~= old(env).events@ + seq![Event::Mint { to, amount }]);
            assert(env.ttl_extensions@ =~= old(env).ttl_extensions@ + Seq::<TtlExtension>::empty());
        }
        Ok(())
    }

    /// Destroys `amount` of the tokens of `from`, who must authorize, and
    /// publishes a `Burn` event. Refused for a non-positive amount, beyond the balance, or where the supply
    /// would underflow.
    pub fn burn(&mut self, env: &mut Env, from: Addr, amount: i128) -> (r: Result<(), Error>)
        ensures
            old(self).supply_matches() ==> final(self).supply_matches(),
            r is Err ==> *final(self) == *old(self),
            amount <= 0 ==> r == Err::<(), Error>(Error::AmountNotPositive),
            amount > 0 && old(self).bal(from) < amount ==> r == Err::<(), Error>(Error::InsufficientBalance),
            amount > 0 && old(self).bal(from) >= amount && old(self).supply() - amount < i128::MIN
                ==> r == Err::<(), Error>(Error::Underflow),
            amount > 0 && old(self).bal(from) >= amount && old(self).supply() - amount >= i128::MIN ==> {
                &&& r is Ok
                &&& env_after_all(*old(env), *final(env), seq![from], seq![], seq![Event::Burn { from, amount }], seq![])
                &&& final(self).admin() == old(self).admin()
                &&& final(self).balances() == old(self).balances().insert(from, (old(self).bal(from) - amount) as i128)
                &&& final(self).supply() == old(self).supply() - amount
            },
    {
        if amount <= 0 {
            return Err(Error::AmountNotPositive);
        }
        env.require_auth(from);
        let bal = self.balances.amount(&from);
        let new_bal = match bal.checked_sub(amount) {
            Some(v) => v,
            None => {
                return Err(Error::InsufficientBalance);
            },
        };
        if new_bal < 0 {
            return Err(Error::InsufficientBalance);
        }
        let new_supply = match self.supply.checked_sub(amount) {
            Some(v) => v,
            None => {
                return Err(Error::Underflow);
            },
        };
        proof {
            if old(self).supply_matches() {
                lemma_total_insert(old(self).balances(), from, new_bal);
            }
        }
        self.balances.set(from, new_bal);
        self.supply = new_supply;
        env.publish(Event::Burn { from, amount });
        proof {
            assert(env.auths@ =~= old(env).auths@ + seq![from]);
            assert(env.transfers@ =~= old(env).transfers@ + Seq::<Transfer>::empty());
            assert(env.events@ =~= old(env).events@ + seq![Event::Burn { from, amount }]);
            assert(env.ttl_extensions@ =~= old(env).ttl_extensions@ + Seq::<TtlExtension>::empty());
        }
        Ok(())
    }

    /// Moves `amount` from `from`, who must authorize, to another holder `to`
    /// and publishes a `Transfer` event. Refused for a non-positive amount, a transfer to oneself, beyond the
    /// sender's balance, or where the receiver's balance would overflow.
    pub fn transfer(&mut self, env: &mut Env, from: Addr, to: Addr, amount: i128) -> (r: Result<(), Error>)
        ensures
            old(self).supply_matches() ==> final(self).supply_matches(),
            r is Err ==> *final(self) == *old(self),
            amount <= 0 ==> r == Err::<(), Error>(Error::AmountNotPositive),
            amount > 0 && from == to ==> r == Err::<(), Error>(Error::SelfTransfer),
            amount > 0 && from != to && old(self).bal(from) < amount ==> r == Err::<(), Error>(Error::InsufficientBalance),
            amount > 0 && from != to && old(self).bal(from) >= amount && old(self).bal(to) + amount > i128::MAX
                ==> r == Err::<(), Error>(Error::Overflow),
            amount > 0 && from != to && old(self).bal(from) >= amount && old(self).bal(to) + amount <= i128::MAX ==> {
                &&& r is Ok
                &&& env_after_all(*old(env), *final(env), seq![from], seq![], seq![Event::Transfer { from, to, amount }], seq![])
                &&& final(self).admin() == old(self).admin()
                &&& final(self).supply() == old(self).supply()
                &&& final(self).balances() == moved(old(self).balances(), from, to, amount)
            },
    {
        if amount <= 0 {
            return Err(Error::AmountNotPositive);
        }
        if from == to {
            return Err(Error::SelfTransfer);
        }
        env.require_auth(from);
        let from_bal = self.balances.amount(&from);
        let to_bal = self.balances.amount(&to);
        let new_from = match from_bal.checked_sub(amount) {
            Some(v) => v,
            None => {
                return Err(Error::InsufficientBalance);
            },
        };
        if new_from < 0 {
            return Err(Error::InsufficientBalance);
        }
        let new_to = match to_bal.checked_add(amount) {
            Some(v) => v,
            None => {
                return Err(Error::Overflow);
            },
        };
        proof {
            if old(self).supply_matches() {
                let b1 = old(self).balances().insert(from, new_from);
                lemma_total_insert(old(self).balances(), from, new_from);
                lemma_total_insert(b1, to, new_to);
            }
        }
        self.balances.set(from, new_from);
        self.balances.set(to, new_to);
        env.publish(Event::Transfer { from, to, amount });
        proof {
            assert(env.auths@ =~= old(env).auths@ + seq![from]);
            assert(env.transfers@ =~= old(env).transfers@ + Seq::<Transfer>::empty());
            assert(env.events@ =~= old(env).events@ + seq![Event::Transfer { from, to, amount }]);
            assert(env.ttl_extensions@ =~= old(env).ttl_extensions@ + Seq::<TtlExtension>::empty());
        }
        Ok(())
    }

    /// The balance of `account`, zero if none.
    pub fn balance(&self, account: Addr) -> (r: i128)
        ensures
            r == self.bal(account),
    {
        self.balances.amount(&account)
    }

    /// The total supply.
    pub fn total_supply(&self) -> (r: i128)
        ensures
            r == self.supply(),
    {
        self.supply
    }
}

} // verus!
