//! A flash-loan pool that refuses any loan that would breach its reserve.
use vstd::prelude::*;
use crate::host::{Addr, Env, Error, env_after};
use super::PoolState;

verus! {

/// A pool that checks the reserve against the balance left by the loan.
pub struct SecurePool {
    state: PoolState,
}

impl SecurePool {
    pub closed spec fn state(&self) -> PoolState {
        self.state
    }

    /// A pool not yet set up.
    pub fn new() -> (c: Self)
        ensures
            c.state() == (PoolState { reserve: None, balance: 0, callback_inflates: false }),
    {
        SecurePool { state: PoolState::new() }
    }

    /// Sets the reserve, once, and a balance equal to it.
    pub fn initialize(&mut self, reserve: i128) -> (r: Result<(), Error>)
        ensures
            old(self).state().reserve is Some <==> r is Err,
            r is Err ==> r == Err::<(), Error>(Error::AlreadyInitialized),
            r is Err ==> *final(self) == *old(self),
            r is Ok ==> final(self).state() == (PoolState { reserve: Some(reserve), balance: reserve, callback_inflates: false }),
    {
        self.state.initialize(reserve)
    }

    /// Sets whether the callback tops up the balance.
    pub fn set_callback_inflates(&mut self, inflates: bool)
        ensures
            final(self).state() == (PoolState { callback_inflates: inflates, ..old(self).state() }),
    {
        self.state.set_callback_inflates(inflates);
    }

    /// Lends `amount` to `borrower`, who must authorize, and runs the
    /// callback; the loan is refused for more than the balance, where the
    /// subtraction overflows, or when the balance left by the loan, whatever
    /// the callback does, would be below the reserve.
    pub fn flash_loan(&mut self, env: &mut Env, borrower: Addr, amount: i128) -> (r: Result<(), Error>)
        ensures
            r is Ok ==> final(self).state().balance >= final(self).state().floor(),
            r is Err ==> *final(self) == *old(self),
            amount > old(self).state().balance ==> r == Err::<(), Error>(Error::InsufficientPoolBalance),
            amount <= old(self).state().balance && old(self).state().balance - amount > i128::MAX
                ==> r == Err::<(), Error>(Error::Underflow),
            amount <= old(self).state().balance && old(self).state().balance - amount <= i128::MAX ==> {
                let left = old(self).state().balance - amount;
                &&& left < old(self).state().floor() ==> r == Err::<(), Error>(Error::InvariantViolated)
                &&& left >= old(self).state().floor() ==> {
                    &&& r is Ok
                    &&& env_after(*old(env), *final(env), seq![borrower], seq![])
                    &&& final(self).state() == (PoolState { balance: left as i128, ..old(self).state() })
                }
            },
    {
        env.require_auth(borrower);
        let bal = self.state.balance;
        let reserve = match self.state.reserve {
            Some(r) => r,
            None => 0,
        };
        if amount > bal {
            return Err(Error::InsufficientPoolBalance);
        }
        let left = match bal.checked_sub(amount) {
            Some(v) => v,
            None => {
                return Err(Error::Underflow);
            },
        };
        let ghost before = self.state;
        self.state.balance = left;
        self.state.run_callback();
        if left < reserve {
            self.state = PoolState { balance: bal, ..self.state };
            assert(self.state == before);
            return Err(Error::InvariantViolated);
        }
        Ok(())
    }

    /// Adds `amount` to the balance.
    pub fn deposit(&mut self, amount: i128)
        requires
            i128::MIN <= old(self).state().balance + amount <= i128::MAX,
        ensures
            final(self).state() == (PoolState { balance: (old(self).state().balance + amount) as i128, ..old(self).state() }),
    {
        self.state.deposit(amount);
    }

    /// The pool balance.
    pub fn balance(&self) -> (r: i128)
        ensures
            r == self.state().balance,
    {
        self.state.balance
    }

    /// The reserve, zero if not set.
    pub fn reserve(&self) -> (r: i128)
        ensures
            r == self.state().floor(),
    {
        match self.state.reserve {
            Some(r) => r,
            None => 0,
        }
    }
}

} // verus!
