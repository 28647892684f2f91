//! An auction whose bids must beat the highest by the minimum increment.
use vstd::prelude::*;
use crate::host::{Addr, Env, Error, env_after};
use super::IncrementAuctionState;

verus! {

/// An auction that enforces its minimum increment.
pub struct SecureAuction {
    state: IncrementAuctionState,
}

impl SecureAuction {
    pub closed spec fn state(&self) -> IncrementAuctionState {
        self.state
    }

    /// An auction not yet set up.
    pub fn new() -> (c: Self)
        ensures
            c.state() == (IncrementAuctionState { min_increment: None, high_bid: 0, high_bidder: None }),
    {
        SecureAuction { state: IncrementAuctionState::new() }
    }

    /// Sets a positive minimum increment, once, with no bid yet.
    pub fn initialize(&mut self, min_increment: i128) -> (r: Result<(), Error>)
        ensures
            r is Err ==> *final(self) == *old(self),
            old(self).state().min_increment is Some ==> r == Err::<(), Error>(Error::AlreadyInitialized),
            old(self).state().min_increment is None && min_increment <= 0
                ==> r == Err::<(), Error>(Error::MinIncrementNotPositive),
            old(self).state().min_increment is None && min_increment > 0 ==> r is Ok && final(self).state() == (IncrementAuctionState {
                min_increment: Some(min_increment),
                high_bid: 0,
                high_bidder: old(self).state().high_bidder,
            }),
    {
        self.state.initialize(min_increment)
    }

    /// Makes `bidder`, who must authorize, the highest bidder at `amount`,
    /// which must be at least the highest bid plus the minimum increment.
    /// Refused before initialization or where the threshold overflows.
    pub fn bid(&mut self, env: &mut Env, bidder: Addr, amount: i128) -> (r: Result<(), Error>)
        ensures
            r is Ok ==> old(self).state().min_increment is Some
                && final(self).state().high_bid >= old(self).state().high_bid + old(self).state().min_increment->0,
            r is Err ==> *final(self) == *old(self),
            old(self).state().min_increment is None ==> r == Err::<(), Error>(Error::NotInitialized),
            old(self).state().min_increment is Some ==> {
                let required = old(self).state().high_bid + old(self).state().min_increment->0;
                &&& !(i128::MIN <= required <= i128::MAX) ==> r == Err::<(), Error>(Error::Overflow)
                &&& i128::MIN <= required <= i128::MAX && amount < required
                    ==> r == Err::<(), Error>(Error::BelowMinIncrement)
                &&& i128::MIN <= required <= i128::MAX && amount >= required ==> {
                    &&& r is Ok
                    &&& env_after(*old(env), *final(env), seq![bidder], seq![])
                    &&& final(self).state() == (IncrementAuctionState {
                        high_bid: amount,
                        high_bidder: Some(bidder),
                        ..old(self).state()
                    })
                }
            },
    {
        env.require_auth(bidder);
        let high_bid = self.state.high_bid;
        let min_increment = match self.state.min_increment {
            Some(m) => m,
            None => {
                return Err(Error::NotInitialized);
            },
        };
        let required = match high_bid.checked_add(min_increment) {
            Some(v) => v,
            None => {
                return Err(Error::Overflow);
            },
        };
        if amount < required {
            return Err(Error::BelowMinIncrement);
        }
        self.state.high_bidder = Some(bidder);
        self.state.high_bid = amount;
        Ok(())
    }

    /// The highest bid.
    pub fn high_bid(&self) -> (r: i128)
        ensures
            r == self.state().high_bid,
    {
        self.state.high_bid
    }

    /// The highest bidder, if any.
    pub fn high_bidder(&self) -> (r: Option<Addr>)
        ensures
            r == self.state().high_bidder,
    {
        self.state.high_bidder
    }

    /// The minimum increment, zero if not set.
    pub fn min_increment(&self) -> (r: i128)
        ensures
            r == match self.state().min_increment { Some(m) => m, None => 0 },
    {
        match self.state.min_increment {
            Some(m) => m,
            None => 0,
        }
    }
}

} // verus!
