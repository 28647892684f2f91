//! Recording the absolute value of a signed debt delta.
use vstd::prelude::*;
use crate::host::{Addr, Env, env_after};
use crate::table::{Table, value_or};

pub mod secure;

verus! {

/// The magnitude of the last delta recorded per user.
pub struct RiskModule {
    deltas: Table<Addr, i128>,
}

/// `|x|`.
pub open spec fn abs(x: int) -> int {
    if x < 0 { -x } else { x }
}

impl RiskModule {
    pub closed spec fn deltas(&self) -> Map<Addr, i128> {
        self.deltas@
    }

    /// A module with nothing recorded.
    pub fn new() -> (c: Self)
        ensures
            c.deltas() == Map::<Addr, i128>::empty(),
    {
        RiskModule { deltas: Table::new() }
    }

    /// Records `|delta|` for `user`, who must authorize. The absolute value
    /// of `i128::MIN` does not exist in `i128`.
    pub fn record_delta(&mut self, env: &mut Env, user: Addr, delta: i128)
        requires
            delta != i128::MIN,
        ensures
            env_after(*old(env), *final(env), seq![user], seq![]),
            final(self).deltas() == old(self).deltas().insert(user, abs(delta as int) as i128),
    {
        env.require_auth(user);
        let abs_delta = if delta < 0 { -delta } else { delta };
        self.deltas.set(user, abs_delta);
    }

    /// The delta recorded for `user`, zero if none.
    pub fn get_delta(&self, user: Addr) -> (r: i128)
        ensures
            r == value_or(self.deltas(), user, 0i128),
    {
        self.deltas.amount(&user)
    }
}

} // verus!
