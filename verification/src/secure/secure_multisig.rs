//! A multisignature approval of actions identified by their hash, with a
//! threshold of approvals and proposals that expire.
use vstd::prelude::*;
use crate::host::{Addr, Env, Error, Event, Transfer, TtlExtension, env_after_all, contains_addr, copy_addrs};
use crate::table::Table;

verus! {

/// A proposed action: the ledger it was proposed at, who approved it, and
/// whether it ran.
#[derive(Clone, Debug)]
pub struct Proposal {
    pub created_at: u32,
    pub approvals: Vec<Addr>,
    pub executed: bool,
}

impl Proposal {
    /// An identical proposal.
    pub fn copy(&self) -> (r: Proposal)
        ensures
            r.created_at == self.created_at,
            r.approvals@ == self.approvals@,
            r.executed == self.executed,
    {
        Proposal { created_at: self.created_at, approvals: copy_addrs(&self.approvals), executed: self.executed }
    }
}

/// The signers, the approval threshold, the lifetime of a proposal in
/// ledgers, and the proposals by action hash.
pub struct SecureMultisig {
    signers: Option<Vec<Addr>>,
    threshold: Option<u32>,
    ttl_ledgers: Option<u32>,
    proposals: Table<[u8; 32], Proposal>,
}

impl SecureMultisig {
    pub closed spec fn signers(&self) -> Option<Seq<Addr>> {
        match self.signers {
            Some(v) => Some(v@),
            None => None,
        }
    }

    pub closed spec fn threshold(&self) -> Option<u32> {
        self.threshold
    }

    pub closed spec fn ttl(&self) -> Option<u32> {
        self.ttl_ledgers
    }

    pub closed spec fn proposals(&self) -> Map<[u8; 32], Proposal> {
        self.proposals@
    }

    /// Whether `a` is one of the signers.
    pub open spec fn is_signer(&self, a: Addr) -> bool {
        self.signers() is Some && self.signers()->0.contains(a)
    }

    /// Whether proposal `p` is still open at ledger `now`.
    pub open spec fn live(&self, p: Proposal, now: u32) -> bool {
        now <= p.created_at + self.ttl()->0
    }

    /// The configuration and all proposals but `h` are as in `other`.
    pub open spec fn same_except(&self, other: &Self, h: [u8; 32]) -> bool {
        &&& self.signers() == other.signers()
        &&& self.threshold() == other.threshold()
        &&& self.ttl() == other.ttl()
        &&& self.proposals().dom() == other.proposals().dom().insert(h)
        &&& forall|k: [u8; 32]| #![trigger self.proposals()[k]]
            k != h && other.proposals().contains_key(k) ==> self.proposals()[k] == other.proposals()[k]
    }

    /// Every proposal has been approved by signers only, each at most once.
    pub open spec fn approvals_sound(&self) -> bool {
        forall|h: [u8; 32]| #![trigger self.proposals()[h]] self.proposals().contains_key(h) ==> {
            &&& self.proposals()[h].approvals@.no_duplicates()
            &&& forall|i: int| 0 <= i < self.proposals()[h].approvals@.len()
                ==> self.is_signer(#[trigger] self.proposals()[h].approvals@[i])
        }
    }

    /// A contract with no signers and no proposals.
    pub fn new() -> (c: Self)
        ensures
            c.approvals_sound(),
            c.signers() is None,
            c.threshold() is None,
            c.ttl() is None,
            c.proposals() == Map::<[u8; 32], Proposal>::empty(),
    {
        SecureMultisig { signers: None, threshold: None, ttl_ledgers: None, proposals: Table::new() }
    }

    /// Sets the signers, the threshold and the proposal lifetime, once.
    /// Refused for a zero threshold or one above the number of signers.
    pub fn initialize(&mut self, signers: Vec<Addr>, threshold: u32, ttl_ledgers: u32) -> (r: Result<(), Error>)
        ensures
            old(self).approvals_sound() ==> final(self).approvals_sound(),
            r is Err ==> *final(self) == *old(self),
            old(self).signers() is Some ==> r == Err::<(), Error>(Error::AlreadyInitialized),
            old(self).signers() is None && (threshold == 0 || threshold > signers@.len())
                ==> r == Err::<(), Error>(Error::InvalidThreshold),
            old(self).signers() is None && !(threshold == 0 || threshold > signers@.len()) ==> {
                &&& r is Ok
                &&& final(self).signers() == Some(signers@)
                &&& final(self).threshold() == Some(threshold)
                &&& final(self).ttl() == Some(ttl_ledgers)
                &&& final(self).proposals() == old(self).proposals()
            },
    {
        if self.signers.is_some() {
            return Err(Error::AlreadyInitialized);
        }
        if threshold == 0 || threshold as usize > signers.len() {
            return Err(Error::InvalidThreshold);
        }
        self.signers = Some(signers);
        self.threshold = Some(threshold);
        self.ttl_ledgers = Some(ttl_ledgers);
        proof {
            if old(self).approvals_sound() {
                assert forall|h: [u8; 32]| #![trigger self.proposals()[h]] self.proposals().contains_key(h)
                    implies self.proposals()[h].approvals@.len() == 0 by {
                    if self.proposals()[h].approvals@.len() > 0 {
                        assert(old(self).is_signer(old(self).proposals()[h].approvals@[0]));
                    }
                }
            }
        }
        Ok(())
    }

    fn assert_signer(&self, addr: Addr) -> (r: Result<(), Error>)
        ensures
            self.signers() is None ==> r == Err::<(), Error>(Error::NotInitialized),
            self.signers() is Some && !self.is_signer(addr) ==> r == Err::<(), Error>(Error::NotSigner),
            self.is_signer(addr) ==> r is Ok,
    {
        match &self.signers {
            Some(signers) => {
                if contains_addr(signers, addr) {
                    Ok(())
                } else {
                    Err(Error::NotSigner)
                }
            },
            None => Err(Error::NotInitialized),
        }
    }

    fn assert_not_expired(&self, env: &Env, proposal: &Proposal) -> (r: Result<(), Error>)
        requires
            self.ttl() is Some ==> proposal.created_at + self.ttl()->0 <= u32::MAX,
        ensures
            self.ttl() is None ==> r == Err::<(), Error>(Error::NotInitialized),
            self.ttl() is Some && !self.live(*proposal, env.sequence) ==> r == Err::<(), Error>(Error::ProposalExpired),
            self.ttl() is Some && self.live(*proposal, env.sequence) ==> r is Ok,
    {
        match self.ttl_ledgers {
            Some(ttl) => {
                if env.sequence > proposal.created_at + ttl {
                    Err(Error::ProposalExpired)
                } else {
                    Ok(())
                }
            },
            None => Err(Error::NotInitialized),
        }
    }

    /// Opens a proposal for `action_hash` at the current ledger, with no
    /// approvals, and publishes an `ActionProposed` event; `proposer` must
    /// authorize and be a signer. Refused for a hash already proposed.
    pub fn propose_action(&mut self, env: &mut Env, proposer: Addr, action_hash: [u8; 32]) -> (r: Result<(), Error>)
        ensures
            old(self).approvals_sound() ==> final(self).approvals_sound(),
            r is Err ==> *final(self) == *old(self),
            old(self).signers() is None ==> r == Err::<(), Error>(Error::NotInitialized),
            old(self).signers() is Some && !old(self).is_signer(proposer) ==> r == Err::<(), Error>(Error::NotSigner),
            old(self).is_signer(proposer) && old(self).proposals().contains_key(action_hash)
                ==> r == Err::<(), Error>(Error::ProposalExists),
            old(self).is_signer(proposer) && !old(self).proposals().contains_key(action_hash) ==> {
                let p = final(self).proposals()[action_hash];
                &&& r is Ok
                &&& env_after_all(*old(env), *final(env), seq![proposer], seq![], seq![Event::ActionProposed { action_hash }], seq![])
                &&& final(self).same_except(old(self), action_hash)
                &&& p.created_at == old(env).sequence
                &&& p.approvals@ == Seq::<Addr>::empty()
                &&& !p.executed
            },
    {
        env.require_auth(proposer);
        if let Err(e) = self.assert_signer(proposer) {
            return Err(e);
        }
        if self.proposals.has(&action_hash) {
            return Err(Error::ProposalExists);
        }
        let proposal = Proposal { created_at: env.sequence, approvals: Vec::new(), executed: false };
        self.proposals.set(action_hash, proposal);
        proof {
            assert(self.proposals@.dom() =~= old(self).proposals@.dom().insert(action_hash));
            if old(self).approvals_sound() {
                assert forall|h: [u8; 32]| #![trigger self.proposals()[h]] self.proposals().contains_key(h) implies {
                    &&& self.proposals()[h].approvals@.no_duplicates()
                    &&& forall|i: int| 0 <= i < self.proposals()[h].approvals@.len()
                        ==> self.is_signer(#[trigger] self.proposals()[h].approvals@[i])
                } by {
                    if h != action_hash {
                        assert(old(self).proposals()[h] == self.proposals()[h]);
                    }
                }
            }
        }
        env.publish(Event::ActionProposed { action_hash });
        proof {
            assert(env.auths@ =~= old(env).auths@ + seq![proposer]);
            assert(env.transfers@ =~= old(env).transfers@ + Seq::<Transfer>::empty());
            assert(env.events@ =~= old(env).events@ + seq![Event::ActionProposed { action_hash }]);
            assert(env.ttl_extensions@ =~= old(env).ttl_extensions@ + Seq::<TtlExtension>::empty());
        }
        Ok(())
    }

    /// Adds the approval of `signer`, who must authorize and be a signer, to
    /// the proposal for `action_hash`, and publishes an `ActionApproved`
    /// event. Refused for an unknown, expired or executed proposal, or a
    /// second approval by the same signer.
    pub fn approve(&mut self, env: &mut Env, signer: Addr, action_hash: [u8; 32]) -> (r: Result<(), Error>)
        requires
            old(self).ttl() is Some && old(self).proposals().contains_key(action_hash)
                ==> old(self).proposals()[action_hash].created_at + old(self).ttl()->0 <= u32::MAX,
        ensures
            old(self).approvals_sound() ==> final(self).approvals_sound(),
            r is Err ==> *final(self) == *old(self),
            old(self).signers() is None ==> r == Err::<(), Error>(Error::NotInitialized),
            old(self).signers() is Some && !old(self).is_signer(signer) ==> r == Err::<(), Error>(Error::NotSigner),
            old(self).is_signer(signer) && !old(self).proposals().contains_key(action_hash)
                ==> r == Err::<(), Error>(Error::ProposalNotFound),
            old(self).is_signer(signer) && old(self).proposals().contains_key(action_hash) ==> {
                let p = old(self).proposals()[action_hash];
                let q = final(self).proposals()[action_hash];
                &&& old(self).ttl() is None ==> r == Err::<(), Error>(Error::NotInitialized)
                &&& old(self).ttl() is Some && !old(self).live(p, old(env).sequence)
                    ==> r == Err::<(), Error>(Error::ProposalExpired)
                &&& old(self).ttl() is Some && old(self).live(p, old(env).sequence) && p.executed
                    ==> r == Err::<(), Error>(Error::AlreadyExecuted)
                &&& old(self).ttl() is Some && old(self).live(p, old(env).sequence) && !p.executed
                    && p.approvals@.contains(signer) ==> r == Err::<(), Error>(Error::AlreadyApproved)
                &&& old(self).ttl() is Some && old(self).live(p, old(env).sequence) && !p.executed
                    && !p.approvals@.contains(signer) ==> {
                    &&& r is Ok
                    &&& env_after_all(
                        *old(env),
                        *final(env),
                        seq![signer],
                        seq![],
                        seq![Event::ActionApproved { action_hash, signer }],
                        seq![],
                    )
                    &&& final(self).same_except(old(self), action_hash)
                    &&& q.created_at == p.created_at
                    &&& q.approvals@ == p.approvals@.push(signer)
                    &&& !q.executed
                }
            },
    {
        env.require_auth(signer);
        if let Err(e) = self.assert_signer(signer) {
            return Err(e);
        }
        let mut proposal = match self.proposals.get(&action_hash) {
            Some(p) => p.copy(),
            None => {
                return Err(Error::ProposalNotFound);
            },
        };
        if let Err(e) = self.assert_not_expired(env, &proposal) {
            return Err(e);
        }
        if proposal.executed {
            return Err(Error::AlreadyExecuted);
        }
        if contains_addr(&proposal.approvals, signer) {
            return Err(Error::AlreadyApproved);
        }
        proposal.approvals.push(signer);
        self.proposals.set(action_hash, proposal);
        proof {
            assert(self.proposals@.dom() =~= old(self).proposals@.dom().insert(action_hash));
        }
        env.publish(Event::ActionApproved { action_hash, signer });
        proof {
            assert(env.auths@ =~= old(env).auths@ + seq![signer]);
            assert(env.transfers@ =~= old(env).transfers@ + Seq::<Transfer>::empty());
            assert(env.events@ =~= old(env).events@ + seq![Event::ActionApproved { action_hash, signer }]);
            assert(env.ttl_extensions@ =~= old(env).ttl_extensions@ + Seq::<TtlExtension>::empty());
        }
        Ok(())
    }

    /// Marks the proposal for `action_hash` executed once it has at least
    /// the threshold of approvals, and publishes an `ActionExecuted` event.
    /// Refused for an unknown, expired or executed proposal, or too few
    /// approvals.
    pub fn execute(&mut self, env: &mut Env, action_hash: [u8; 32]) -> (r: Result<(), Error>)
        requires
            old(self).ttl() is Some && old(self).proposals().contains_key(action_hash)
                ==> old(self).proposals()[action_hash].created_at + old(self).ttl()->0 <= u32::MAX,
        ensures
            old(self).approvals_sound() ==> final(self).approvals_sound(),
            r is Err ==> *final(self) == *old(self),
            !old(self).proposals().contains_key(action_hash) ==> r == Err::<(), Error>(Error::ProposalNotFound),
            old(self).proposals().contains_key(action_hash) ==> {
                let p = old(self).proposals()[action_hash];
                let q = final(self).proposals()[action_hash];
                let open = old(self).ttl() is Some && old(self).live(p, old(env).sequence) && !p.executed;
                &&& old(self).ttl() is None ==> r == Err::<(), Error>(Error::NotInitialized)
                &&& old(self).ttl() is Some && !old(self).live(p, old(env).sequence)
                    ==> r == Err::<(), Error>(Error::ProposalExpired)
                &&& old(self).ttl() is Some && old(self).live(p, old(env).sequence) && p.executed
                    ==> r == Err::<(), Error>(Error::AlreadyExecuted)
                &&& open && old(self).threshold() is None ==> r == Err::<(), Error>(Error::NotInitialized)
                &&& open && old(self).threshold() is Some && p.approvals@.len() < old(self).threshold()->0
                    ==> r == Err::<(), Error>(Error::InsufficientApprovals)
                &&& open && old(self).threshold() is Some && p.approvals@.len() >= old(self).threshold()->0 ==> {
                    &&& r is Ok
                    &&& env_after_all(*old(env), *final(env), seq![], seq![], seq![Event::ActionExecuted { action_hash }], seq![])
                    &&& final(self).same_except(old(self), action_hash)
                    &&& q.created_at == p.created_at
                    &&& q.approvals@ == p.approvals@
                    &&& q.executed
                }
            },
    {
        let mut proposal = match self.proposals.get(&action_hash) {
            Some(p) => p.copy(),
            None => {
                return Err(Error::ProposalNotFound);
            },
        };
        if let Err(e) = self.assert_not_expired(env, &proposal) {
            return Err(e);
        }
        if proposal.executed {
            return Err(Error::AlreadyExecuted);
        }
        let threshold = match self.threshold {
            Some(t) => t,
            None => {
                return Err(Error::NotInitialized);
            },
        };
        if proposal.approvals.len() < threshold as usize {
            return Err(Error::InsufficientApprovals);
        }
        proposal.executed = true;
        self.proposals.set(action_hash, proposal);
        proof {
            assert(self.proposals@.dom() =~= old(self).proposals@.dom().insert(action_hash));
        }
        env.publish(Event::ActionExecuted { action_hash });
        proof {
            assert(env.auths@ =~= old(env).auths@ + Seq::<Addr>::empty());
            assert(env.transfers@ =~= old(env).transfers@ + Seq::<Transfer>::empty());
            assert(env.events@ =~= old(env).events@ + seq![Event::ActionExecuted { action_hash }]);
            assert(env.ttl_extensions@ =~= old(env).ttl_extensions@ + Seq::<TtlExtension>::empty());
        }
        Ok(())
    }

    /// The proposal for `action_hash`, if any.
    pub fn get_proposal(&self, action_hash: [u8; 32]) -> (r: Option<Proposal>)
        ensures
            self.proposals().contains_key(action_hash) <==> r is Some,
            r is Some ==> {
                let p = self.proposals()[action_hash];
                &&& r->0.created_at == p.created_at
                &&& r->0.approvals@ == p.approvals@
                &&& r->0.executed == p.executed
            },
    {
        match self.proposals.get(&action_hash) {
            Some(p) => Some(p.copy()),
            None => None,
        }
    }

    /// The signers; refused before initialization.
    pub fn get_signers(&self) -> (r: Result<Vec<Addr>, Error>)
        ensures
            self.signers() is None ==> r == Err::<Vec<Addr>, Error>(Error::NotInitialized),
            self.signers() is Some ==> r is Ok && r->Ok_0@ == self.signers()->0,
    {
        match &self.signers {
            Some(s) => Ok(copy_addrs(s)),
            None => Err(Error::NotInitialized),
        }
    }
}

/// An action runs only with the approval of at least the threshold of
/// distinct signers: where approvals are sound and a proposal holds as many
/// approvals as the threshold (what `execute` asks for), its approvers form a
/// set of signers no smaller than the threshold.
/// A proposal stays open for the configured number of ledgers after the
/// ledger at which it was made, and closes at the first ledger past that.
pub proof fn law_proposal_open_for_ttl(m: SecureMultisig, p: Proposal, now: u32)
    requires
        m.ttl() is Some,
    ensures
        p.created_at <= now <= p.created_at + m.ttl()->0 ==> m.live(p, now),
        now == p.created_at ==> m.live(p, now),
        now > p.created_at + m.ttl()->0 ==> !m.live(p, now),
{
}

pub proof fn law_execution_needs_threshold_signers(m: SecureMultisig, h: [u8; 32])
    requires
        m.approvals_sound(),
        m.proposals().contains_key(h),
        m.threshold() is Some,
        m.proposals()[h].approvals@.len() >= m.threshold()->0,
    ensures
        m.proposals()[h].approvals@.to_set().len() >= m.threshold()->0,
        forall|a: Addr| m.proposals()[h].approvals@.to_set().contains(a) ==> m.is_signer(a),
{
    let a = m.proposals()[h].approvals@;
    a.unique_seq_to_set();
    assert forall|x: Addr| a.to_set().contains(x) implies m.is_signer(x) by {
        let i = choose|i: int| 0 <= i < a.len() && a[i] == x;
        assert(m.is_signer(a[i]));
    }
}

} // verus!
