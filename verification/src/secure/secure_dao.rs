//! Token-weighted governance: proposals, one vote per holder, a quorum and a
//! timelock before execution.
use vstd::prelude::*;
use crate::host::{Addr, Env, Error, Event, Transfer, TtlExtension, env_after_all};
use crate::ledger::{total_of, lemma_total_insert};
use crate::table::{Table, value_or};

verus! {

/// The number of ledgers between queueing a proposal and executing it.
pub const TIMELOCK_DELAY: u32 = 1000;

/// The quorum, in basis points of the supply when the proposal was made.
pub const QUORUM_BPS: u64 = 1000;

/// A proposal: who made it, the supply then, the votes, and its progress.
#[derive(Clone, Copy, Debug, PartialEq, Eq, Structural)]
pub struct Proposal {
    pub proposer: Addr,
    pub snapshot_supply: i128,
    pub votes_for: i128,
    pub votes_against: i128,
    pub queued: bool,
    pub executed: bool,
    pub execute_after: u32,
}

/// The votes needed for a proposal made at supply `supply`: 10% of it,
/// rounded down.
pub open spec fn quorum(supply: i128) -> int {
    crate::math::div_trunc(supply * QUORUM_BPS, 10_000)
}

/// The quorum is a tenth of the supply, rounded down: ten times the quorum
/// does not exceed the supply, and ten times one vote more does.
pub proof fn law_quorum_is_a_tenth_of_supply(supply: i128)
    requires
        supply >= 0,
    ensures
        quorum(supply) * 10 <= supply < (quorum(supply) + 1) * 10,
        quorum(supply) == supply / 10,
{
    let a: int = supply * 1000;
    assert(a >= 0) by (nonlinear_arith)
        requires a == supply * 1000, supply >= 0;
    assert(quorum(supply) == a / 10_000);
    vstd::arithmetic::div_mod::lemma_fundamental_div_mod(a, 10_000);
    vstd::arithmetic::div_mod::lemma_fundamental_div_mod(supply as int, 10);
    let q = a / 10_000;
    let r = a % 10_000;
    let q2 = supply / 10;
    let r2 = supply % 10;
    assert(q == q2) by (nonlinear_arith)
        requires
            a == supply * 1000,
            a == 10_000 * q + r,
            0 <= r < 10_000,
            supply == 10 * q2 + r2,
            0 <= r2 < 10;
}

/// Whether `x` fits in an `i128`.
pub open spec fn fits(x: int) -> bool {
    i128::MIN <= x <= i128::MAX
}

/// The supply, balances, proposals by id and who has voted on which.
pub struct SecureDao {
    supply: i128,
    balances: Table<Addr, i128>,
    next_id: u64,
    proposals: Table<u64, Proposal>,
    voted: Table<(u64, Addr), bool>,
}

impl SecureDao {
    pub closed spec fn supply(&self) -> i128 {
        self.supply
    }

    pub closed spec fn balances(&self) -> Map<Addr, i128> {
        self.balances@
    }

    pub closed spec fn next_id(&self) -> u64 {
        self.next_id
    }

    pub closed spec fn proposals(&self) -> Map<u64, Proposal> {
        self.proposals@
    }

    pub closed spec fn voted(&self) -> Map<(u64, Addr), bool> {
        self.voted@
    }

    /// The balance of `a`, zero if none.
    pub open spec fn bal(&self, a: Addr) -> int {
        value_or(self.balances(), a, 0i128) as int
    }

    /// This state with the proposals `proposals`, all else as in `other`.
    pub open spec fn same_but_proposals(&self, other: &Self) -> bool {
        &&& self.supply() == other.supply()
        &&& self.balances() == other.balances()
        &&& self.next_id() == other.next_id()
        &&& self.voted() == other.voted()
    }

    /// The supply is the sum of all balances, so that the quorum, a share of
    /// the supply, is a share of the votes that exist.
    pub open spec fn supply_matches(&self) -> bool {
        &&& self.balances().dom().finite()
        &&& self.supply() == total_of(self.balances())
    }

    /// A DAO with no supply, no proposals and ids from zero.
    pub fn new() -> (c: Self)
        ensures
            c.supply_matches(),
            c.supply() == 0,
            c.balances() == Map::<Addr, i128>::empty(),
            c.next_id() == 0,
            c.proposals() == Map::<u64, Proposal>::empty(),
            c.voted() == Map::<(u64, Addr), bool>::empty(),
    {
        let c = SecureDao { supply: 0, balances: Table::new(), next_id: 0, proposals: Table::new(), voted: Table::new() };
        assert(c.balances().dom() =~= Set::<Addr>::empty());
        c
    }

    /// Creates `amount` voting tokens for `to`; refused where the balance or
    /// the supply would overflow.
    pub fn mint(&mut self, to: Addr, amount: i128) -> (r: Result<(), Error>)
        ensures
            old(self).voted().submap_of(final(self).voted()),
            old(self).supply_matches() ==> final(self).supply_matches(),
            r is Err ==> *final(self) == *old(self),
            fits(old(self).bal(to) + amount) && fits(old(self).supply() + amount) <==> r is Ok,
            r is Err ==> r == Err::<(), Error>(Error::Overflow),
            r is Ok ==> {
                &&& final(self).balances() == old(self).balances().insert(to, (old(self).bal(to) + amount) as i128)
                &&& final(self).supply() == old(self).supply() + amount
                &&& final(self).next_id() == old(self).next_id()
                &&& final(self).proposals() == old(self).proposals()
                &&& final(self).voted() == old(self).voted()
            },
    {
        let bal = self.balances.amount(&to);
        let new_bal = match bal.checked_add(amount) {
            Some(v) => v,
            None => {
                return Err(Error::Overflow);
            },
        };
        let new_supply = match self.supply.checked_add(amount) {
            Some(v) => v,
            None => {
                return Err(Error::Overflow);
            },
        };
        proof {
            if old(self).supply_matches() {
                lemma_total_insert(old(self).balances(), to, new_bal);
            }
        }
        self.balances.set(to, new_bal);
        self.supply = new_supply;
        Ok(())
    }

    /// The balance of `account`, zero if none.
    pub fn balance(&self, account: Addr) -> (r: i128)
        ensures
            r == self.bal(account),
    {
        self.balances.amount(&account)
    }

    /// The total supply.
    pub fn total_supply(&self) -> (r: i128)
        ensures
            r == self.supply(),
    {
        self.supply
    }

    /// Opens a proposal by `proposer`, who must authorize and hold tokens,
    /// under the next id, recording the current supply, and publishes a
    /// `Proposed` event; returns the id.
    pub fn create_proposal(&mut self, env: &mut Env, proposer: Addr) -> (r: Result<u64, Error>)
        requires
            old(self).bal(proposer) >= 1 ==> old(self).next_id() < u64::MAX,
        ensures
            old(self).voted().submap_of(final(self).voted()),
            old(self).supply_matches() ==> final(self).supply_matches(),
            r is Err ==> *final(self) == *old(self),
            old(self).bal(proposer) < 1 <==> r is Err,
            r is Err ==> r == Err::<u64, Error>(Error::NoTokens),
            old(self).bal(proposer) >= 1 ==> {
                &&& r == Ok::<u64, Error>(old(self).next_id())
                &&& env_after_all(*old(env), *final(env), seq![proposer], seq![], seq![Event::Proposed { id: old(self).next_id(), proposer }], seq![])
                &&& final(self).proposals() == old(self).proposals().insert(
                    old(self).next_id(),
                    Proposal {
                        proposer,
                        snapshot_supply: old(self).supply(),
                        votes_for: 0,
                        votes_against: 0,
                        queued: false,
                        executed: false,
                        execute_after: 0,
                    },
                )
                &&& final(self).next_id() == old(self).next_id() + 1
                &&& final(self).supply() == old(self).supply()
                &&& final(self).balances() == old(self).balances()
                &&& final(self).voted() == old(self).voted()
            },
    {
        env.require_auth(proposer);
        let bal = self.balances.amount(&proposer);
        if bal < 1 {
            return Err(Error::NoTokens);
        }
        let id = self.next_id;
        let proposal = Proposal {
            proposer,
            snapshot_supply: self.supply,
            votes_for: 0,
            votes_against: 0,
            queued: false,
            executed: false,
            execute_after: 0,
        };
        self.proposals.set(id, proposal);
        self.next_id = id + 1;
        env.publish(Event::Proposed { id, proposer });
        proof {
            assert(env.auths@ =~= old(env).auths@ + seq![proposer]);
            assert(env.transfers@ =~= old(env).transfers@ + Seq::<Transfer>::empty());
            assert(env.events@ =~= old(env).events@ + seq![Event::Proposed { id, proposer }]);
            assert(env.ttl_extensions@ =~= old(env).ttl_extensions@ + Seq::<TtlExtension>::empty());
        }
        Ok(id)
    }

    /// Records the vote of `voter`, who must authorize, for (`support`) or
    /// against proposal `proposal_id`, weighted by the voter's balance, and
    /// publishes a `Voted` event. Refused for a second vote, an unknown
    /// proposal, a proposal already queued or executed, a voter without
    /// tokens, or an overflowing tally.
    pub fn vote(&mut self, env: &mut Env, voter: Addr, proposal_id: u64, support: bool) -> (r: Result<(), Error>)
        ensures
            old(self).voted().submap_of(final(self).voted()),
            old(self).supply_matches() ==> final(self).supply_matches(),
            r is Err ==> *final(self) == *old(self),
            old(self).voted().contains_key((proposal_id, voter)) ==> r == Err::<(), Error>(Error::AlreadyVoted),
            !old(self).voted().contains_key((proposal_id, voter)) && !old(self).proposals().contains_key(proposal_id)
                ==> r == Err::<(), Error>(Error::ProposalNotFound),
            !old(self).voted().contains_key((proposal_id, voter)) && old(self).proposals().contains_key(proposal_id) ==> {
                let p = old(self).proposals()[proposal_id];
                let w = old(self).bal(voter);
                &&& (p.queued || p.executed) ==> r == Err::<(), Error>(Error::VotingClosed)
                &&& !(p.queued || p.executed) && w < 1 ==> r == Err::<(), Error>(Error::NoVotingPower)
                &&& !(p.queued || p.executed) && w >= 1 && support && !fits(p.votes_for + w)
                    ==> r == Err::<(), Error>(Error::Overflow)
                &&& !(p.queued || p.executed) && w >= 1 && !support && !fits(p.votes_against + w)
                    ==> r == Err::<(), Error>(Error::Overflow)
                &&& !(p.queued || p.executed) && w >= 1 && (if support { fits(p.votes_for + w) } else { fits(p.votes_against + w) }) ==> {
                    &&& r is Ok
                    &&& env_after_all(
                        *old(env),
                        *final(env),
                        seq![voter],
                        seq![],
                        seq![Event::Voted { proposal_id, voter, support, weight: w as i128 }],
                        seq![],
                    )
                    &&& final(self).proposals() == old(self).proposals().insert(
                        proposal_id,
                        if support {
                            Proposal { votes_for: (p.votes_for + w) as i128, ..p }
                        } else {
                            Proposal { votes_against: (p.votes_against + w) as i128, ..p }
                        },
                    )
                    &&& final(self).voted() == old(self).voted().insert((proposal_id, voter), true)
                    &&& final(self).supply() == old(self).supply()
                    &&& final(self).balances() == old(self).balances()
                    &&& final(self).next_id() == old(self).next_id()
                }
            },
    {
        env.require_auth(voter);
        if self.voted.has(&(proposal_id, voter)) {
            return Err(Error::AlreadyVoted);
        }
        let mut proposal = match self.proposals.get(&proposal_id) {
            Some(p) => *p,
            None => {
                return Err(Error::ProposalNotFound);
            },
        };
        if proposal.queued || proposal.executed {
            return Err(Error::VotingClosed);
        }
        let weight = self.balances.amount(&voter);
        if weight < 1 {
            return Err(Error::NoVotingPower);
        }
        if support {
            proposal.votes_for = match proposal.votes_for.checked_add(weight) {
                Some(v) => v,
                None => {
                    return Err(Error::Overflow);
                },
            };
        } else {
            proposal.votes_against = match proposal.votes_against.checked_add(weight) {
                Some(v) => v,
                None => {
                    return Err(Error::Overflow);
                },
            };
        }
        self.proposals.set(proposal_id, proposal);
        self.voted.set((proposal_id, voter), true);
        env.publish(Event::Voted { proposal_id, voter, support, weight });
        proof {
            assert(env.auths@ =~= old(env).auths@ + seq![voter]);
            assert(env.transfers@ =~= old(env).transfers@ + Seq::<Transfer>::empty());
            assert(env.events@ =~= old(env).events@ + seq![Event::Voted { proposal_id, voter, support, weight }]);
            assert(env.ttl_extensions@ =~= old(env).ttl_extensions@ + Seq::<TtlExtension>::empty());
        }
        Ok(())
    }

    /// Queues a passed proposal for execution `TIMELOCK_DELAY` ledgers from
    /// now and publishes a `Queued` event. Refused for an unknown, queued or
    /// executed proposal, one with no more votes for than against, one whose
    /// turnout is below the quorum, or where a computation overflows.
    pub fn queue(&mut self, env: &mut Env, proposal_id: u64) -> (r: Result<(), Error>)
        ensures
            old(self).voted().submap_of(final(self).voted()),
            old(self).supply_matches() ==> final(self).supply_matches(),
            r is Err ==> *final(self) == *old(self),
            !old(self).proposals().contains_key(proposal_id) ==> r == Err::<(), Error>(Error::ProposalNotFound),
            old(self).proposals().contains_key(proposal_id) ==> {
                let p = old(self).proposals()[proposal_id];
                let checks = !p.queued && !p.executed && p.votes_for > p.votes_against;
                let sizes = fits(p.votes_for + p.votes_against) && fits(p.snapshot_supply * QUORUM_BPS);
                &&& p.queued ==> r == Err::<(), Error>(Error::AlreadyQueued)
                &&& !p.queued && p.executed ==> r == Err::<(), Error>(Error::AlreadyExecuted)
                &&& !p.queued && !p.executed && p.votes_for <= p.votes_against
                    ==> r == Err::<(), Error>(Error::ProposalNotPassed)
                &&& checks && !sizes ==> r == Err::<(), Error>(Error::Overflow)
                &&& checks && sizes && p.votes_for + p.votes_against < quorum(p.snapshot_supply)
                    ==> r == Err::<(), Error>(Error::QuorumNotReached)
                &&& checks && sizes && p.votes_for + p.votes_against >= quorum(p.snapshot_supply)
                    && old(env).sequence + TIMELOCK_DELAY > u32::MAX ==> r == Err::<(), Error>(Error::Overflow)
                &&& checks && sizes && p.votes_for + p.votes_against >= quorum(p.snapshot_supply)
                    && old(env).sequence + TIMELOCK_DELAY <= u32::MAX ==> {
                    &&& r is Ok
                    &&& env_after_all(
                        *old(env),
                        *final(env),
                        seq![],
                        seq![],
                        seq![Event::Queued { proposal_id, execute_after: (old(env).sequence + TIMELOCK_DELAY) as u32 }],
                        seq![],
                    )
                    &&& final(self).proposals() == old(self).proposals().insert(
                        proposal_id,
                        Proposal { queued: true, execute_after: (old(env).sequence + TIMELOCK_DELAY) as u32, ..p },
                    )
                    &&& final(self).same_but_proposals(old(self))
                }
            },
    {
        let mut proposal = match self.proposals.get(&proposal_id) {
            Some(p) => *p,
            None => {
                return Err(Error::ProposalNotFound);
            },
        };
        if proposal.queued {
            return Err(Error::AlreadyQueued);
        }
        if proposal.executed {
            return Err(Error::AlreadyExecuted);
        }
        if proposal.votes_for <= proposal.votes_against {
            return Err(Error::ProposalNotPassed);
        }
        let total_votes = match proposal.votes_for.checked_add(proposal.votes_against) {
            Some(v) => v,
            None => {
                return Err(Error::Overflow);
            },
        };
        let scaled = match proposal.snapshot_supply.checked_mul(QUORUM_BPS as i128) {
            Some(v) => v,
            None => {
                return Err(Error::Overflow);
            },
        };
        let quorum_threshold = scaled / 10_000;
        if total_votes < quorum_threshold {
            return Err(Error::QuorumNotReached);
        }
        let execute_after = match env.sequence.checked_add(TIMELOCK_DELAY) {
            Some(v) => v,
            None => {
                return Err(Error::Overflow);
            },
        };
        proposal.queued = true;
        proposal.execute_after = execute_after;
        self.proposals.set(proposal_id, proposal);
        env.publish(Event::Queued { proposal_id, execute_after });
        proof {
            assert(env.auths@ =~= old(env).auths@ + Seq::<Addr>::empty());
            assert(env.transfers@ =~= old(env).transfers@ + Seq::<Transfer>::empty());
            assert(env.events@ =~= old(env).events@ + seq![Event::Queued { proposal_id, execute_after }]);
            assert(env.ttl_extensions@ =~= old(env).ttl_extensions@ + Seq::<TtlExtension>::empty());
        }
        Ok(())
    }

    /// Marks a queued proposal executed once its timelock has passed and
    /// publishes an `Executed` event. Refused for an unknown, unqueued or
    /// executed proposal, or before the timelock ends.
    pub fn execute(&mut self, env: &mut Env, proposal_id: u64) -> (r: Result<(), Error>)
        ensures
            old(self).voted().submap_of(final(self).voted()),
            old(self).supply_matches() ==> final(self).supply_matches(),
            r is Err ==> *final(self) == *old(self),
            !old(self).proposals().contains_key(proposal_id) ==> r == Err::<(), Error>(Error::ProposalNotFound),
            old(self).proposals().contains_key(proposal_id) ==> {
                let p = old(self).proposals()[proposal_id];
                &&& !p.queued ==> r == Err::<(), Error>(Error::ProposalNotQueued)
                &&& p.queued && p.executed ==> r == Err::<(), Error>(Error::AlreadyExecuted)
                &&& p.queued && !p.executed && old(env).sequence < p.execute_after
                    ==> r == Err::<(), Error>(Error::TimelockNotExpired)
                &&& p.queued && !p.executed && old(env).sequence >= p.execute_after ==> {
                    &&& r is Ok
                    &&& env_after_all(*old(env), *final(env), seq![], seq![], seq![Event::Executed { proposal_id }], seq![])
                    &&& final(self).proposals() == old(self).proposals().insert(
                        proposal_id,
                        Proposal { executed: true, ..p },
                    )
                    &&& final(self).same_but_proposals(old(self))
                }
            },
    {
        let mut proposal = match self.proposals.get(&proposal_id) {
            Some(p) => *p,
            None => {
                return Err(Error::ProposalNotFound);
            },
        };
        if !proposal.queued {
            return Err(Error::ProposalNotQueued);
        }
        if proposal.executed {
            return Err(Error::AlreadyExecuted);
        }
        if env.sequence < proposal.execute_after {
            return Err(Error::TimelockNotExpired);
        }
        proposal.executed = true;
        self.proposals.set(proposal_id, proposal);
        env.publish(Event::Executed { proposal_id });
        proof {
            assert(env.auths@ =~= old(env).auths@ + Seq::<Addr>::empty());
            assert(env.transfers@ =~= old(env).transfers@ + Seq::<Transfer>::empty());
            assert(env.events@ =~= old(env).events@ + seq![Event::Executed { proposal_id }]);
            assert(env.ttl_extensions@ =~= old(env).ttl_extensions@ + Seq::<TtlExtension>::empty());
        }
        Ok(())
    }

    /// The proposal `proposal_id`; refused for an unknown one.
    pub fn get_proposal(&self, proposal_id: u64) -> (r: Result<Proposal, Error>)
        ensures
            !self.proposals().contains_key(proposal_id) ==> r == Err::<Proposal, Error>(Error::ProposalNotFound),
            self.proposals().contains_key(proposal_id) ==> r == Ok::<Proposal, Error>(self.proposals()[proposal_id]),
    {
        match self.proposals.get(&proposal_id) {
            Some(p) => Ok(*p),
            None => Err(Error::ProposalNotFound),
        }
    }
}

} // verus!
