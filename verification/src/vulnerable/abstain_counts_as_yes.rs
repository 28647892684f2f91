//! Vote tallying: whether a proposal passes given yes, no and abstain counts.
use vstd::prelude::*;
use crate::host::{Addr, Env};

verus! {

/// A tally contract with no storage.
pub struct AbstainCountsAsYes;

impl AbstainCountsAsYes {
    /// Accepts any actor and amount and does nothing with them.
    pub fn vulnerable_entry(env: &Env, actor: Addr, amount: i128) {
    }

    /// Passes when yes and abstain together reach no: abstentions are
    /// counted on the yes side, and an abstention that exactly closes the
    /// gap carries the vote.
    pub fn vulnerable_passes(yes: i128, no: i128, abstain: i128) -> (r: bool)
        requires
            i128::MIN <= yes + abstain <= i128::MAX,
        ensures
            r == (yes + abstain >= no),
    {
        (yes + abstain) >= no
    }

    /// Passes when the turnout (yes, no and abstain) reaches `quorum` and yes
    /// outnumbers no: abstentions count toward the quorum only.
    pub fn secure_passes(yes: i128, no: i128, abstain: i128, quorum: i128) -> (r: bool)
        requires
            i128::MIN <= yes + no <= i128::MAX,
            i128::MIN <= yes + no + abstain <= i128::MAX,
        ensures
            r == (yes + no + abstain >= quorum && yes > no),
    {
        let total = yes + no + abstain;
        total >= quorum && yes > no
    }
}

} // verus!
