//! An auction whose bids fail when refunding the outbid bidder fails.
use vstd::prelude::*;
use crate::host::{Addr, Env, Error, env_after};

verus! {

/// The highest bid (absent before setup), the highest bidder, and whether
/// refunds to the outbid bidder fail.
pub struct VulnerableAuction {
    high_bid: Option<i128>,
    high_bidder: Option<Addr>,
    refund_blocked: bool,
}

impl VulnerableAuction {
    pub closed spec fn bid_of(&self) -> Option<i128> {
        self.high_bid
    }

    pub closed spec fn bidder(&self) -> Option<Addr> {
        self.high_bidder
    }

    pub closed spec fn blocked(&self) -> bool {
        self.refund_blocked
    }

    /// The highest bid, zero if none.
    pub open spec fn top(&self) -> i128 {
        match self.bid_of() {
            Some(b) => b,
            None => 0,
        }
    }

    /// An auction not yet set up.
    pub fn new() -> (c: Self)
        ensures
            c.bid_of() is None,
            c.bidder() is None,
            !c.blocked(),
    {
        VulnerableAuction { high_bid: None, high_bidder: None, refund_blocked: false }
    }

    /// Opens the auction, once, with a highest bid of zero and refunds that
    /// succeed.
    pub fn initialize(&mut self) -> (r: Result<(), Error>)
        ensures
            old(self).bid_of() is Some <==> r is Err,
            r is Err ==> r == Err::<(), Error>(Error::AlreadyInitialized),
            r is Err ==> *final(self) == *old(self),
            r is Ok ==> final(self).bid_of() == Some(0i128) && !final(self).blocked()
                && final(self).bidder() == old(self).bidder(),
    {
        if self.high_bid.is_some() {
            return Err(Error::AlreadyInitialized);
        }
        self.high_bid = Some(0);
        self.refund_blocked = false;
        Ok(())
    }

    /// Sets whether refunds to the outbid bidder fail.
    pub fn set_refund_blocked(&mut self, blocked: bool)
        ensures
            final(self).blocked() == blocked,
            final(self).bid_of() == old(self).bid_of(),
            final(self).bidder() == old(self).bidder(),
    {
        self.refund_blocked = blocked;
    }

    /// Makes `bidder`, who must authorize, the highest bidder at `amount`.
    /// Refused for a bid not above the highest, and, when there was a
    /// positive bid to refund, while refunds fail.
    pub fn bid(&mut self, env: &mut Env, bidder: Addr, amount: i128) -> (r: Result<(), Error>)
        ensures
            r is Err ==> *final(self) == *old(self),
            amount <= old(self).top() ==> r == Err::<(), Error>(Error::BidTooLow),
            amount > old(self).top() && old(self).top() > 0 && old(self).blocked()
                ==> r == Err::<(), Error>(Error::RefundFailed),
            amount > old(self).top() && !(old(self).top() > 0 && old(self).blocked()) ==> {
                &&& r is Ok
                &&& env_after(*old(env), *final(env), seq![bidder], seq![])
                &&& final(self).bid_of() == Some(amount)
                &&& final(self).bidder() == Some(bidder)
                &&& final(self).blocked() == old(self).blocked()
            },
    {
        env.require_auth(bidder);
        let high_bid = match self.high_bid {
            Some(b) => b,
            None => 0,
        };
        if amount <= high_bid {
            return Err(Error::BidTooLow);
        }
        if high_bid > 0 && self.refund_blocked {
            return Err(Error::RefundFailed);
        }
        self.high_bidder = Some(bidder);
        self.high_bid = Some(amount);
        Ok(())
    }

    /// The highest bid, zero if none.
    pub fn high_bid(&self) -> (r: i128)
        ensures
            r == self.top(),
    {
        match self.high_bid {
            Some(b) => b,
            None => 0,
        }
    }

    /// The highest bidder, if any.
    pub fn high_bidder(&self) -> (r: Option<Addr>)
        ensures
            r == self.bidder(),
    {
        self.high_bidder
    }
}

} // verus!
