//! An auction with a configured minimum increment that bids may ignore.
use vstd::prelude::*;
use crate::host::{Addr, Env, Error, env_after};

pub mod secure;

verus! {

/// The minimum increment, the highest bid and the highest bidder.
pub struct IncrementAuctionState {
    pub min_increment: Option<i128>,
    pub high_bid: i128,
    pub high_bidder: Option<Addr>,
}

impl IncrementAuctionState {
    /// An auction not yet set up.
    pub fn new() -> (s: Self)
        ensures
            s == (IncrementAuctionState { min_increment: None, high_bid: 0, high_bidder: None }),
    {
        IncrementAuctionState { min_increment: None, high_bid: 0, high_bidder: None }
    }

    /// Sets a positive minimum increment, once, with no bid yet.
    pub fn initialize(&mut self, min_increment: i128) -> (r: Result<(), Error>)
        ensures
            r is Err ==> *final(self) == *old(self),
            old(self).min_increment is Some ==> r == Err::<(), Error>(Error::AlreadyInitialized),
            old(self).min_increment is None && min_increment <= 0 ==> r == Err::<(), Error>(Error::MinIncrementNotPositive),
            old(self).min_increment is None && min_increment > 0 ==> r is Ok && *final(self) == (IncrementAuctionState {
                min_increment: Some(min_increment),
                high_bid: 0,
                high_bidder: old(self).high_bidder,
            }),
    {
        if self.min_increment.is_some() {
            return Err(Error::AlreadyInitialized);
        }
        if min_increment <= 0 {
            return Err(Error::MinIncrementNotPositive);
        }
        self.min_increment = Some(min_increment);
        self.high_bid = 0;
        Ok(())
    }
}

/// An auction that takes any bid above the highest.
pub struct VulnerableAuction {
    state: IncrementAuctionState,
}

impl VulnerableAuction {
    pub closed spec fn state(&self) -> IncrementAuctionState {
        self.state
    }

    /// An auction not yet set up.
    pub fn new() -> (c: Self)
        ensures
            c.state() == (IncrementAuctionState { min_increment: None, high_bid: 0, high_bidder: None }),
    {
        VulnerableAuction { state: IncrementAuctionState::new() }
    }

    /// Sets a positive minimum increment, once, with no bid yet.
    pub fn initialize(&mut self, min_increment: i128) -> (r: Result<(), Error>)
        ensures
            r is Err ==> *final(self) == *old(self),
            old(self).state().min_increment is Some ==> r == Err::<(), Error>(Error::AlreadyInitialized),
            old(self).state().min_increment is None && min_increment <= 0
                ==> r == Err::<(), Error>(Error::MinIncrementNotPositive),
            old(self).state().min_increment is None && min_increment > 0 ==> r is Ok && final(self).state() == (IncrementAuctionState {
                min_increment: Some(min_increment),
                high_bid: 0,
                high_bidder: old(self).state().high_bidder,
            }),
    {
        self.state.initialize(min_increment)
    }

    /// Makes `bidder`, who must authorize, the highest bidder at `amount`,
    /// for any amount above the highest bid.
    pub fn bid(&mut self, env: &mut Env, bidder: Addr, amount: i128) -> (r: Result<(), Error>)
        ensures
            r is Err ==> *final(self) == *old(self),
            amount <= old(self).state().high_bid <==> r is Err,
            r is Err ==> r == Err::<(), Error>(Error::BidTooLow),
            amount > old(self).state().high_bid ==> {
                &&& r is Ok
                &&& env_after(*old(env), *final(env), seq![bidder], seq![])
                &&& final(self).state() == (IncrementAuctionState {
                    high_bid: amount,
                    high_bidder: Some(bidder),
                    ..old(self).state()
                })
            },
    {
        env.require_auth(bidder);
        if amount <= self.state.high_bid {
            return Err(Error::BidTooLow);
        }
        self.state.high_bidder = Some(bidder);
        self.state.high_bid = amount;
        Ok(())
    }

    /// The highest bid.
    pub fn high_bid(&self) -> (r: i128)
        ensures
            r == self.state().high_bid,
    {
        self.state.high_bid
    }

    /// The highest bidder, if any.
    pub fn high_bidder(&self) -> (r: Option<Addr>)
        ensures
            r == self.state().high_bidder,
    {
        self.state.high_bidder
    }

    /// The minimum increment, zero if not set.
    pub fn min_increment(&self) -> (r: i128)
        ensures
            r == match self.state().min_increment { Some(m) => m, None => 0 },
    {
        match self.state.min_increment {
            Some(m) => m,
            None => 0,
        }
    }
}

} // verus!
