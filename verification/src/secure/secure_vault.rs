//! A vault of balances with checked minting, burning and transfers.
use vstd::prelude::*;
use crate::ledger::moved;
use crate::host::{Addr, Env, Error, Event, Transfer, TtlExtension, env_after_all};
use crate::table::{Table, value_or};

verus! {

/// Balances per holder.
pub struct SecureVault {
    balances: Table<Addr, i128>,
}

impl SecureVault {
    pub closed spec fn balances(&self) -> Map<Addr, i128> {
        self.balances@
    }

    /// The balance of `a`, zero if none.
    pub open spec fn bal(&self, a: Addr) -> int {
        value_or(self.balances(), a, 0i128) as int
    }

    /// A vault with no balances.
    pub fn new() -> (c: Self)
        ensures
            c.balances() == Map::<Addr, i128>::empty(),
    {
        SecureVault { balances: Table::new() }
    }

    /// Adds `amount` to the balance of `to` and publishes a `Mint` event;
    /// refused where it would overflow.
    pub fn mint(&mut self, env: &mut Env, to: Addr, amount: i128) -> (r: Result<(), Error>)
        ensures
            r is Err ==> *final(self) == *old(self),
            i128::MIN <= old(self).bal(to) + amount <= i128::MAX <==> r is Ok,
            r is Err ==> r == Err::<(), Error>(Error::Overflow),
            r is Ok ==> env_after_all(*old(env), *final(env), seq![], seq![], seq![Event::Mint { to, amount }], seq![])
                && final(self).balances() == old(self).balances().insert(to, (old(self).bal(to) + amount) as i128),
    {
        let current = self.balances.amount(&to);
        let new_balance = match current.checked_add(amount) {
            Some(v) => v,
            None => {
                return Err(Error::Overflow);
            },
        };
        self.balances.set(to, new_balance);
        env.publish(Event::Mint { to, amount });
        Ok(())
    }

    /// Takes `amount` from the balance of `from`, who must authorize, and
    /// publishes a `Burn` event; refused where the balance would fall below
    /// zero.
    pub fn burn(&mut self, env: &mut Env, from: Addr, amount: i128) -> (r: Result<(), Error>)
        ensures
            r is Err ==> *final(self) == *old(self),
            0 <= old(self).bal(from) - amount <= i128::MAX <==> r is Ok,
            r is Err ==> r == Err::<(), Error>(Error::InsufficientBalance),
            r is Ok ==> env_after_all(*old(env), *final(env), seq![from], seq![], seq![Event::Burn { from, amount }], seq![])
                && final(self).balances() == old(self).balances().insert(from, (old(self).bal(from) - amount) as i128),
    {
        env.require_auth(from);
        let current = self.balances.amount(&from);
        let new_balance = match current.checked_sub(amount) {
            Some(v) => v,
            None => {
                return Err(Error::InsufficientBalance);
            },
        };
        if new_balance < 0 {
            return Err(Error::InsufficientBalance);
        }
        self.balances.set(from, new_balance);
        env.publish(Event::Burn { from, amount });
        proof {
            assert(env.auths@ =~= old(env).auths@ + seq![from]);
            assert(env.transfers@ =~= old(env).transfers@ + Seq::<Transfer>::empty());
            assert(env.events@ =~= old(env).events@ + seq![Event::Burn { from, amount }]);
            assert(env.ttl_extensions@ =~= old(env).ttl_extensions@ + Seq::<TtlExtension>::empty());
        }
        Ok(())
    }

    /// Moves `amount` from `from`, who must authorize, to `to`. Both balances
    /// are read first, then the sender's and then the receiver's is written;
    /// a `Transfer` event is published. Refused where the sender's balance would fall below zero, or the
    /// receiver's would overflow.
    pub fn transfer(&mut self, env: &mut Env, from: Addr, to: Addr, amount: i128) -> (r: Result<(), Error>)
        ensures
            r is Err ==> *final(self) == *old(self),
            !(0 <= old(self).bal(from) - amount <= i128::MAX) ==> r == Err::<(), Error>(Error::InsufficientBalance),
            0 <= old(self).bal(from) - amount <= i128::MAX && !(i128::MIN <= old(self).bal(to) + amount <= i128::MAX)
                ==> r == Err::<(), Error>(Error::Overflow),
            0 <= old(self).bal(from) - amount <= i128::MAX && i128::MIN <= old(self).bal(to) + amount <= i128::MAX ==> {
                &&& r is Ok
                &&& env_after_all(*old(env), *final(env), seq![from], seq![], seq![Event::Transfer { from, to, amount }], seq![])
                &&& final(self).balances() == old(self).balances()
                    .insert(from, (old(self).bal(from) - amount) as i128)
                    .insert(to, (old(self).bal(to) + amount) as i128)
                &&& from != to ==> final(self).balances() == moved(old(self).balances(), from, to, amount)
            },
    {
        env.require_auth(from);
        let from_balance = self.balances.amount(&from);
        let to_balance = self.balances.amount(&to);
        let new_from = match from_balance.checked_sub(amount) {
            Some(v) => v,
            None => {
                return Err(Error::InsufficientBalance);
            },
        };
        if new_from < 0 {
            return Err(Error::InsufficientBalance);
        }
        let new_to = match to_balance.checked_add(amount) {
            Some(v) => v,
            None => {
                return Err(Error::Overflow);
            },
        };
        self.balances.set(from, new_from);
        self.balances.set(to, new_to);
        env.publish(Event::Transfer { from, to, amount });
        proof {
            assert(env.auths@ =~= old(env).auths@ + seq![from]);
            assert(env.transfers@ =~= old(env).transfers@ + Seq::<Transfer>::empty());
            assert(env.events@ =~= old(env).events@ + seq![Event::Transfer { from, to, amount }]);
            assert(env.ttl_extensions@ =~= old(env).ttl_extensions@ + Seq::<TtlExtension>::empty());
        }
        Ok(())
    }

    /// The balance of `account`, zero if none.
    pub fn balance(&self, account: Addr) -> (r: i128)
        ensures
            r == self.bal(account),
    {
        self.balances.amount(&account)
    }
}

} // verus!
