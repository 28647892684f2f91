//! Processing that recurses through nested contract calls.
use vstd::prelude::*;
use crate::host::{Addr, Env, Error};

verus! {

/// The deepest nesting `process_safe` accepts.
pub const MAX_DEPTH: u32 = 10;

/// Whether processing happened and how many times.
pub struct CallDepthContract {
    processed: bool,
    count: u32,
}

impl CallDepthContract {
    pub closed spec fn processed(&self) -> bool {
        self.processed
    }

    pub closed spec fn count(&self) -> u32 {
        self.count
    }

    /// A contract that has processed nothing.
    pub fn new() -> (c: Self)
        ensures
            !c.processed(),
            c.count() == 0,
    {
        CallDepthContract { processed: false, count: 0 }
    }

    /// Calls `process` of the contract at `contract_id` with one less depth,
    /// unless `depth` is zero, then marks processing done and counts it. The
    /// contract called is taken to be this one, so a call of depth `d` counts
    /// `d + 1` times.
    pub fn process(&mut self, env: &Env, contract_id: Addr, depth: u32)
        requires
            old(self).count() + depth + 1 <= u32::MAX,
        ensures
            final(self).processed(),
            final(self).count() == old(self).count() + depth + 1,
        decreases depth,
    {
        if depth > 0 {
            self.process(env, contract_id, depth - 1);
        }
        self.processed = true;
        let count = self.count;
        self.count = count + 1;
    }

    /// As `process`, refusing a depth above `MAX_DEPTH`.
    pub fn process_safe(&mut self, env: &Env, contract_id: Addr, depth: u32) -> (r: Result<(), Error>)
        requires
            old(self).count() + depth + 1 <= u32::MAX,
        ensures
            depth > MAX_DEPTH <==> r is Err,
            r is Err ==> r == Err::<(), Error>(Error::DepthExceeded),
            r is Err ==> *final(self) == *old(self),
            r is Ok ==> final(self).processed() && final(self).count() == old(self).count() + depth + 1,
        decreases depth,
    {
        if depth > MAX_DEPTH {
            return Err(Error::DepthExceeded);
        }
        if depth > 0 {
            if let Err(e) = self.process_safe(env, contract_id, depth - 1) {
                return Err(e);
            }
        }
        self.processed = true;
        let count = self.count;
        self.count = count + 1;
        Ok(())
    }

    /// Whether processing happened.
    pub fn is_processed(&self) -> (r: bool)
        ensures
            r == self.processed(),
    {
        self.processed
    }

    /// How many times processing happened.
    pub fn processed_count(&self) -> (r: u32)
        ensures
            r == self.count(),
    {
        self.count
    }
}

} // verus!
