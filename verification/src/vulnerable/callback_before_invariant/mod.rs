//! A flash-loan pool whose reserve check may run after a callback that can
//! restore the balance.
use vstd::prelude::*;
use crate::host::{Addr, Env, Error, env_after};

pub mod secure;

verus! {

/// The reserve (absent before setup), the pool balance, and whether the
/// borrower's callback tops the balance back up to the reserve.
pub struct PoolState {
    pub reserve: Option<i128>,
    pub balance: i128,
    pub callback_inflates: bool,
}

impl PoolState {
    /// The reserve, zero if not set.
    pub open spec fn floor(&self) -> i128 {
        match self.reserve {
            Some(r) => r,
            None => 0,
        }
    }

    /// The balance after the borrower's callback.
    pub open spec fn after_callback(&self) -> i128 {
        if self.callback_inflates && self.balance < self.floor() {
            self.floor()
        } else {
            self.balance
        }
    }

    /// A pool not yet set up.
    pub fn new() -> (s: Self)
        ensures
            s == (PoolState { reserve: None, balance: 0, callback_inflates: false }),
    {
        PoolState { reserve: None, balance: 0, callback_inflates: false }
    }

    /// Sets the reserve, once, and a balance equal to it.
    pub fn initialize(&mut self, reserve: i128) -> (r: Result<(), Error>)
        ensures
            old(self).reserve is Some <==> r is Err,
            r is Err ==> r == Err::<(), Error>(Error::AlreadyInitialized),
            r is Err ==> *final(self) == *old(self),
            r is Ok ==> *final(self) == (PoolState { reserve: Some(reserve), balance: reserve, callback_inflates: false }),
    {
        if self.reserve.is_some() {
            return Err(Error::AlreadyInitialized);
        }
        self.reserve = Some(reserve);
        self.balance = reserve;
        self.callback_inflates = false;
        Ok(())
    }

    /// Sets whether the callback tops up the balance.
    pub fn set_callback_inflates(&mut self, inflates: bool)
        ensures
            *final(self) == (PoolState { callback_inflates: inflates, ..*old(self) }),
    {
        self.callback_inflates = inflates;
    }

    /// Runs the borrower's callback.
    pub fn run_callback(&mut self)
        ensures
            *final(self) == (PoolState { balance: old(self).after_callback(), ..*old(self) }),
    {
        if self.callback_inflates {
            let bal = self.balance;
            let reserve = match self.reserve {
                Some(r) => r,
                None => 0,
            };
            if bal < reserve {
                self.balance = reserve;
            }
        }
    }

    /// Adds `amount` to the balance.
    pub fn deposit(&mut self, amount: i128)
        requires
            i128::MIN <= old(self).balance + amount <= i128::MAX,
        ensures
            *final(self) == (PoolState { balance: (old(self).balance + amount) as i128, ..*old(self) }),
    {
        self.balance = self.balance + amount;
    }
}

/// A pool that checks its reserve after the callback has run.
pub struct VulnerablePool {
    state: PoolState,
}

impl VulnerablePool {
    pub closed spec fn state(&self) -> PoolState {
        self.state
    }

    /// A pool not yet set up.
    pub fn new() -> (c: Self)
        ensures
            c.state() == (PoolState { reserve: None, balance: 0, callback_inflates: false }),
    {
        VulnerablePool { state: PoolState::new() }
    }

    /// Sets the reserve, once, and a balance equal to it.
    pub fn initialize(&mut self, reserve: i128) -> (r: Result<(), Error>)
        ensures
            old(self).state().reserve is Some <==> r is Err,
            r is Err ==> r == Err::<(), Error>(Error::AlreadyInitialized),
            r is Err ==> *final(self) == *old(self),
            r is Ok ==> final(self).state() == (PoolState { reserve: Some(reserve), balance: reserve, callback_inflates: false }),
    {
        self.state.initialize(reserve)
    }

    /// Sets whether the callback tops up the balance.
    pub fn set_callback_inflates(&mut self, inflates: bool)
        ensures
            final(self).state() == (PoolState { callback_inflates: inflates, ..old(self).state() }),
    {
        self.state.set_callback_inflates(inflates);
    }

    /// Lends `amount` to `borrower`, who must authorize, runs the callback,
    /// and then requires the balance to be back at or above the reserve.
    /// Refused for more than the balance, or when the balance after the
    /// callback is below the reserve.
    pub fn flash_loan(&mut self, env: &mut Env, borrower: Addr, amount: i128) -> (r: Result<(), Error>)
        requires
            amount <= old(self).state().balance ==> old(self).state().balance - amount <= i128::MAX,
        ensures
            r is Err ==> *final(self) == *old(self),
            amount > old(self).state().balance ==> r == Err::<(), Error>(Error::InsufficientPoolBalance),
            amount <= old(self).state().balance ==> {
                let lent = PoolState { balance: (old(self).state().balance - amount) as i128, ..old(self).state() };
                &&& lent.after_callback() < old(self).state().floor() ==> r == Err::<(), Error>(Error::InvariantViolated)
                &&& lent.after_callback() >= old(self).state().floor() ==> {
                    &&& r is Ok
                    &&& env_after(*old(env), *final(env), seq![borrower], seq![])
                    &&& final(self).state() == (PoolState { balance: lent.after_callback(), ..old(self).state() })
                }
            },
    {
        env.require_auth(borrower);
        let bal = self.state.balance;
        let reserve = match self.state.reserve {
            Some(r) => r,
            None => 0,
        };
        if amount > bal {
            return Err(Error::InsufficientPoolBalance);
        }
        let ghost before = self.state;
        self.state.balance = bal - amount;
        self.state.run_callback();
        let post_bal = self.state.balance;
        if post_bal < reserve {
            self.state = PoolState { balance: bal, ..self.state };
            assert(self.state == before);
            return Err(Error::InvariantViolated);
        }
        Ok(())
    }

    /// Adds `amount` to the balance.
    pub fn deposit(&mut self, amount: i128)
        requires
            i128::MIN <= old(self).state().balance + amount <= i128::MAX,
        ensures
            final(self).state() == (PoolState { balance: (old(self).state().balance + amount) as i128, ..old(self).state() }),
    {
        self.state.deposit(amount);
    }

    /// The pool balance.
    pub fn balance(&self) -> (r: i128)
        ensures
            r == self.state().balance,
    {
        self.state.balance
    }

    /// The reserve, zero if not set.
    pub fn reserve(&self) -> (r: i128)
        ensures
            r == self.state().floor(),
    {
        match self.state.reserve {
            Some(r) => r,
            None => 0,
        }
    }
}

} // verus!
