//! Recording the absolute value of a debt delta, refusing `i128::MIN`.
use vstd::prelude::*;
use crate::host::{Addr, Env, Error, env_after};
use crate::table::{Table, value_or};
use super::abs;

verus! {

/// The magnitude of the last delta recorded per user.
pub struct SecureRisk {
    deltas: Table<Addr, i128>,
}

impl SecureRisk {
    pub closed spec fn deltas(&self) -> Map<Addr, i128> {
        self.deltas@
    }

    /// A module with nothing recorded.
    pub fn new() -> (c: Self)
        ensures
            c.deltas() == Map::<Addr, i128>::empty(),
    {
        SecureRisk { deltas: Table::new() }
    }

    /// Records `|delta|` for `user`, who must authorize; refused for
    /// `i128::MIN`, whose absolute value does not fit.
    pub fn record_delta(&mut self, env: &mut Env, user: Addr, delta: i128) -> (r: Result<(), Error>)
        ensures
            delta == i128::MIN <==> r is Err,
            r is Err ==> r == Err::<(), Error>(Error::DeltaOutOfRange),
            r is Err ==> *final(self) == *old(self),
            r is Ok ==> env_after(*old(env), *final(env), seq![user], seq![])
                && final(self).deltas() == old(self).deltas().insert(user, abs(delta as int) as i128),
    {
        env.require_auth(user);
        if delta == i128::MIN {
            return Err(Error::DeltaOutOfRange);
        }
        let abs_delta = if delta < 0 { -delta } else { delta };
        self.deltas.set(user, abs_delta);
        Ok(())
    }

    /// The delta recorded for `user`, zero if none.
    pub fn get_delta(&self, user: Addr) -> (r: i128)
        ensures
            r == value_or(self.deltas(), user, 0i128),
    {
        self.deltas.amount(&user)
    }
}

} // verus!
