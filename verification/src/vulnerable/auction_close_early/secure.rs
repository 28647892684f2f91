//! An auction that closes only once its end ledger is reached.
use vstd::prelude::*;
use crate::host::{Addr, Env, Error, env_after};
use super::AuctionState;

verus! {

/// An auction closed no earlier than its end ledger.
pub struct SecureAuction {
    state: AuctionState,
}

impl SecureAuction {
    pub closed spec fn state(&self) -> AuctionState {
        self.state
    }

    /// An auction not yet set up.
    pub fn new() -> (c: Self)
        ensures
            c.state() == (AuctionState { end_ledger: None, high_bid: 0, high_bidder: None, closed: false }),
    {
        SecureAuction { state: AuctionState::new() }
    }

    /// Sets the end ledger, once, and opens the auction with no bid.
    pub fn initialize(&mut self, end_ledger: u32) -> (r: Result<(), Error>)
        ensures
            old(self).state().end_ledger is Some <==> r is Err,
            r is Err ==> r == Err::<(), Error>(Error::AlreadyInitialized),
            r is Err ==> *final(self) == *old(self),
            r is Ok ==> final(self).state() == (AuctionState {
                end_ledger: Some(end_ledger),
                high_bid: 0,
                closed: false,
                high_bidder: old(self).state().high_bidder,
            }),
    {
        self.state.initialize(end_ledger)
    }

    /// Makes `bidder`, who must authorize, the highest bidder at `amount`.
    /// Refused once closed or for a bid not above the highest.
    pub fn bid(&mut self, env: &mut Env, bidder: Addr, amount: i128) -> (r: Result<(), Error>)
        ensures
            r is Err ==> *final(self) == *old(self),
            old(self).state().closed ==> r == Err::<(), Error>(Error::AuctionClosed),
            !old(self).state().closed && amount <= old(self).state().high_bid ==> r == Err::<(), Error>(Error::BidTooLow),
            !old(self).state().closed && amount > old(self).state().high_bid ==> {
                &&& r is Ok
                &&& env_after(*old(env), *final(env), seq![bidder], seq![])
                &&& final(self).state() == (AuctionState { high_bid: amount, high_bidder: Some(bidder), ..old(self).state() })
            },
    {
        self.state.bid(env, bidder, amount)
    }

    /// Closes the auction and returns the highest bidder. Refused once
    /// closed, before initialization, before the end ledger, or when there is
    /// no bid.
    pub fn close(&mut self, env: &Env) -> (r: Result<Addr, Error>)
        ensures
            r is Ok ==> old(self).state().end_ledger is Some && env.sequence >= old(self).state().end_ledger->0,
            r is Err ==> *final(self) == *old(self),
            old(self).state().closed ==> r == Err::<Addr, Error>(Error::AuctionClosed),
            !old(self).state().closed && old(self).state().end_ledger is None ==> r == Err::<Addr, Error>(Error::NotInitialized),
            !old(self).state().closed && old(self).state().end_ledger is Some
                && env.sequence < old(self).state().end_ledger->0 ==> r == Err::<Addr, Error>(Error::AuctionNotEnded),
            !old(self).state().closed && old(self).state().end_ledger is Some
                && env.sequence >= old(self).state().end_ledger->0 && old(self).state().high_bidder is None
                ==> r == Err::<Addr, Error>(Error::NoBids),
            !old(self).state().closed && old(self).state().end_ledger is Some
                && env.sequence >= old(self).state().end_ledger->0 && old(self).state().high_bidder is Some ==> {
                &&& r == Ok::<Addr, Error>(old(self).state().high_bidder->0)
                &&& final(self).state() == (AuctionState { closed: true, ..old(self).state() })
            },
    {
        if self.state.closed {
            return Err(Error::AuctionClosed);
        }
        let end_ledger = match self.state.end_ledger {
            Some(e) => e,
            None => {
                return Err(Error::NotInitialized);
            },
        };
        if env.sequence < end_ledger {
            return Err(Error::AuctionNotEnded);
        }
        let winner = match self.state.high_bidder {
            Some(w) => w,
            None => {
                return Err(Error::NoBids);
            },
        };
        self.state.closed = true;
        Ok(winner)
    }

    /// The highest bid.
    pub fn high_bid(&self) -> (r: i128)
        ensures
            r == self.state().high_bid,
    {
        self.state.high_bid
    }

    /// The highest bidder, if any.
    pub fn high_bidder(&self) -> (r: Option<Addr>)
        ensures
            r == self.state().high_bidder,
    {
        self.state.high_bidder
    }

    /// Whether the auction is closed.
    pub fn is_closed(&self) -> (r: bool)
        ensures
            r == self.state().closed,
    {
        self.state.closed
    }
}

} // verus!
