//! The invocation context of a contract call and the values it carries.
use vstd::prelude::*;
use crate::table::TableKey;

verus! {

/// The kind of an address: a user account, identified by its Ed25519 public
/// key, or a contract, identified by its hash.
#[derive(Clone, Copy, Debug, PartialEq, Eq, Structural, Hash)]
pub enum AddrKind {
    Account,
    Contract,
}

/// An account or contract address: its kind and its 32-byte id, held as
/// four 64-bit words, most significant first.
#[derive(Clone, Copy, Debug, PartialEq, Eq, Structural, Hash)]
pub struct Addr {
    pub kind: AddrKind,
    pub id0: u64,
    pub id1: u64,
    pub id2: u64,
    pub id3: u64,
}

/// The 8 big-endian bytes of `w`.
pub open spec fn word_bytes(w: u64) -> Seq<u8> {
    Seq::new(8, |k: int| ((w >> ((56 - 8 * k) as u64)) & 0xff) as u8)
}

/// The 32-byte id of `a`.
pub open spec fn id_bytes(a: Addr) -> Seq<u8> {
    word_bytes(a.id0) + word_bytes(a.id1) + word_bytes(a.id2) + word_bytes(a.id3)
}

fn put_word(out: &mut [u8; 32], at: usize, w: u64)
    requires
        at + 8 <= 32,
    ensures
        forall|j: int| 0 <= j < 32 && !(at <= j < at + 8) ==> final(out)@[j] == old(out)@[j],
        forall|k: int| 0 <= k < 8 ==> final(out)@[at + k] == word_bytes(w)[k],
{
    let mut k: usize = 0;
    while k < 8
        invariant
            k <= 8,
            at + 8 <= 32,
            forall|j: int| 0 <= j < 32 && !(at <= j < at + k) ==> out@[j] == old(out)@[j],
            forall|i: int| 0 <= i < k ==> out@[at + i] == word_bytes(w)[i],
        decreases 8 - k,
    {
        out[at + k] = ((w >> (56 - 8 * k as u64)) & 0xff) as u8;
        k = k + 1;
    }
}

impl Addr {
    /// The 32-byte id of this address.
    pub fn id_array(&self) -> (r: [u8; 32])
        ensures
            r@ == id_bytes(*self),
    {
        let mut out = [0u8; 32];
        put_word(&mut out, 0, self.id0);
        put_word(&mut out, 8, self.id1);
        put_word(&mut out, 16, self.id2);
        put_word(&mut out, 24, self.id3);
        assert(out@ =~= id_bytes(*self));
        out
    }
}

impl TableKey for Addr {
    fn same(&self, other: &Self) -> (b: bool) {
        self.kind == other.kind && self.id0 == other.id0 && self.id1 == other.id1 && self.id2 == other.id2
            && self.id3 == other.id3
    }

    fn duplicate(&self) -> (r: Self) {
        *self
    }
}

/// A short symbol (such as an asset code), identified by a number.
#[derive(Clone, Copy, Debug, PartialEq, Eq, Structural, Hash)]
pub struct Sym(pub u64);

impl TableKey for Sym {
    fn same(&self, other: &Self) -> (b: bool) {
        self.0 == other.0
    }

    fn duplicate(&self) -> (r: Self) {
        *self
    }
}

/// A token movement that a call asks the token contract `token` to make.
#[derive(Clone, Copy, Debug, PartialEq, Eq, Structural)]
pub struct Transfer {
    pub token: Addr,
    pub from: Addr,
    pub to: Addr,
    pub amount: i128,
}

/// An event a call publishes: the topic symbol it is published under, in the
/// variant's description, and the data it carries.
#[derive(Clone, Copy, Debug, PartialEq, Eq)]
pub enum Event {
    /// `"mint"`: `amount` created for `to`.
    Mint { to: Addr, amount: i128 },
    /// `"burn"`: `amount` destroyed from `from`.
    Burn { from: Addr, amount: i128 },
    /// `"transfer"`: `amount` moved from `from` to `to`.
    Transfer { from: Addr, to: Addr, amount: i128 },
    /// `"paused"`: `admin` paused the contract.
    Paused { admin: Addr },
    /// `"unpaused"`: `admin` resumed the contract.
    Unpaused { admin: Addr },
    /// `"proposed"`: `proposer` opened governance proposal `id`.
    Proposed { id: u64, proposer: Addr },
    /// `"voted"`: `voter` voted on proposal `proposal_id` with `weight`.
    Voted { proposal_id: u64, voter: Addr, support: bool, weight: i128 },
    /// `"queued"`: proposal `proposal_id` may run from `execute_after`.
    Queued { proposal_id: u64, execute_after: u32 },
    /// `"executed"`: proposal `proposal_id` ran.
    Executed { proposal_id: u64 },
    /// `"proposed"`: the action `action_hash` was proposed.
    ActionProposed { action_hash: [u8; 32] },
    /// `"approved"`: `signer` approved the action `action_hash`.
    ActionApproved { action_hash: [u8; 32], signer: Addr },
    /// `"executed"`: the action `action_hash` ran.
    ActionExecuted { action_hash: [u8; 32] },
    /// `"fund"`: `admin` funded the contract with `amount`.
    Fund { admin: Addr, amount: i128 },
    /// `"claim"`: `claimant` was paid `amount`.
    Claim { claimant: Addr, amount: i128 },
}

/// A persistent storage entry of a contract, by its key.
#[derive(Clone, Copy, Debug, PartialEq, Eq, Structural)]
pub enum StorageKey {
    RewardRate,
    Stake(Addr),
    StakedAt(Addr),
}

/// A request to extend the time to live of the entry `key` to `extend_to`
/// ledgers, when fewer than `threshold` remain.
#[derive(Clone, Copy, Debug, PartialEq, Eq, Structural)]
pub struct TtlExtension {
    pub key: StorageKey,
    pub threshold: u32,
    pub extend_to: u32,
}

/// The context of one invocation: the ledger sequence number, the address of
/// the contract being run, and what the call asked of the host, in order: the
/// addresses whose authorization it requires, the token transfers it makes,
/// the events it publishes and the storage lifetimes it extends. A call that
/// fails is reverted as a whole, so only a successful call's requests take
/// effect.
pub struct Env {
    pub sequence: u32,
    pub current_contract: Addr,
    pub auths: Vec<Addr>,
    pub transfers: Vec<Transfer>,
    pub events: Vec<Event>,
    pub ttl_extensions: Vec<TtlExtension>,
}

/// `e1` is `e0` after a call that required the authorizations `auths`, made
/// the transfers `transfers`, published the events `events` and extended the
/// lifetimes `ttls`, each in that order.
pub open spec fn env_after_all(
    e0: Env,
    e1: Env,
    auths: Seq<Addr>,
    transfers: Seq<Transfer>,
    events: Seq<Event>,
    ttls: Seq<TtlExtension>,
) -> bool {
    &&& e1.sequence == e0.sequence
    &&& e1.current_contract == e0.current_contract
    &&& e1.auths@ == e0.auths@ + auths
    &&& e1.transfers@ == e0.transfers@ + transfers
    &&& e1.events@ == e0.events@ + events
    &&& e1.ttl_extensions@ == e0.ttl_extensions@ + ttls
}

/// `e1` is `e0` after a call that required the authorizations `auths` and
/// made the transfers `transfers`, in that order, and published no event and
/// extended no lifetime.
pub open spec fn env_after(e0: Env, e1: Env, auths: Seq<Addr>, transfers: Seq<Transfer>) -> bool {
    env_after_all(e0, e1, auths, transfers, seq![], seq![])
}

impl Env {
    /// A context at ledger `sequence` for the contract at `current_contract`,
    /// with nothing requested yet.
    pub fn new(sequence: u32, current_contract: Addr) -> (e: Env)
        ensures
            e.sequence == sequence,
            e.current_contract == current_contract,
            e.auths@ == Seq::<Addr>::empty(),
            e.transfers@ == Seq::<Transfer>::empty(),
            e.events@ == Seq::<Event>::empty(),
            e.ttl_extensions@ == Seq::<TtlExtension>::empty(),
    {
        Env {
            sequence,
            current_contract,
            auths: Vec::new(),
            transfers: Vec::new(),
            events: Vec::new(),
            ttl_extensions: Vec::new(),
        }
    }

    /// Requires that `a` has authorized this invocation.
    pub fn require_auth(&mut self, a: Addr)
        ensures
            env_after(*old(self), *final(self), seq![a], seq![]),
    {
        self.auths.push(a);
        assert(self.auths@ =~= old(self).auths@ + seq![a]);
        assert(self.transfers@ =~= old(self).transfers@ + Seq::<Transfer>::empty());
        assert(self.events@ =~= old(self).events@ + Seq::<Event>::empty());
        assert(self.ttl_extensions@ =~= old(self).ttl_extensions@ + Seq::<TtlExtension>::empty());
    }

    /// Moves `amount` of `token` from `from` to `to`.
    pub fn transfer(&mut self, token: Addr, from: Addr, to: Addr, amount: i128)
        ensures
            env_after(
                *old(self),
                *final(self),
                seq![],
                seq![Transfer { token, from, to, amount }],
            ),
    {
        self.transfers.push(Transfer { token, from, to, amount });
        assert(self.auths@ =~= old(self).auths@ + Seq::<Addr>::empty());
        assert(self.transfers@ =~= old(self).transfers@ + seq![Transfer { token, from, to, amount }]);
        assert(self.events@ =~= old(self).events@ + Seq::<Event>::empty());
        assert(self.ttl_extensions@ =~= old(self).ttl_extensions@ + Seq::<TtlExtension>::empty());
    }

    /// Publishes `event`.
    pub fn publish(&mut self, event: Event)
        ensures
            env_after_all(*old(self), *final(self), seq![], seq![], seq![event], seq![]),
    {
        self.events.push(event);
        assert(self.events@ =~= old(self).events@ + seq![event]);
        assert(self.auths@ =~= old(self).auths@ + Seq::<Addr>::empty());
        assert(self.transfers@ =~= old(self).transfers@ + Seq::<Transfer>::empty());
        assert(self.ttl_extensions@ =~= old(self).ttl_extensions@ + Seq::<TtlExtension>::empty());
    }

    /// Extends the lifetime of the entry `key` to `extend_to` ledgers when
    /// fewer than `threshold` remain.
    pub fn extend_ttl(&mut self, key: StorageKey, threshold: u32, extend_to: u32)
        ensures
            env_after_all(
                *old(self),
                *final(self),
                seq![],
                seq![],
                seq![],
                seq![TtlExtension { key, threshold, extend_to }],
            ),
    {
        self.ttl_extensions.push(TtlExtension { key, threshold, extend_to });
        assert(self.ttl_extensions@ =~= old(self).ttl_extensions@ + seq![TtlExtension { key, threshold, extend_to }]);
        assert(self.auths@ =~= old(self).auths@ + Seq::<Addr>::empty());
        assert(self.transfers@ =~= old(self).transfers@ + Seq::<Transfer>::empty());
        assert(self.events@ =~= old(self).events@ + Seq::<Event>::empty());
    }
}

/// Whether `a` occurs in `v`.
pub fn contains_addr(v: &Vec<Addr>, a: Addr) -> (b: bool)
    ensures
        b == v@.contains(a),
{
    let mut i: usize = 0;
    while i < v.len()
        invariant
            i <= v@.len(),
            forall|j: int| 0 <= j < i ==> v@[j] != a,
        decreases v@.len() - i,
    {
        if v[i] == a {
            return true;
        }
        i = i + 1;
    }
    false
}

/// A copy of `v`.
pub fn copy_addrs(v: &Vec<Addr>) -> (r: Vec<Addr>)
    ensures
        r@ == v@,
{
    let mut r: Vec<Addr> = Vec::new();
    let mut i: usize = 0;
    while i < v.len()
        invariant
            i <= v@.len(),
            r@ == v@.take(i as int),
        decreases v@.len() - i,
    {
        r.push(v[i]);
        i = i + 1;
        assert(r@ =~= v@.take(i as int));
    }
    assert(v@.take(v@.len() as int) =~= v@);
    r
}

/// Why a call was refused. Each variant is one reason a contract of this
/// library rejects a call; the call then changes nothing.
#[derive(Clone, Copy, Debug, PartialEq, Eq, Structural)]
pub enum Error {
    AlreadyInitialized,
    NotInitialized,
    NotAdmin,
    NotOwner,
    NotSigner,
    AmountNotPositive,
    InsufficientBalance,
    InsufficientAllowance,
    InsufficientFunds,
    Overflow,
    Underflow,
    Unauthorized,
    TokenNotRegistered,
    NormalisedZero,
    SelfTransfer,
    Paused,
    InsufficientCollateral,
    RepayExceedsDebt,
    NothingToLiquidate,
    NotLiquidatable,
    DelayNotElapsed,
    UnlockNotSet,
    StillLocked,
    RateTooHigh,
    NoPendingProposal,
    ProposalExpired,
    InvalidSchedule,
    ScheduleExists,
    ScheduleNotFound,
    ScheduleRevoked,
    NothingClaimable,
    AlreadyRevoked,
    NoTokens,
    AlreadyVoted,
    ProposalNotFound,
    VotingClosed,
    NoVotingPower,
    AlreadyQueued,
    AlreadyExecuted,
    ProposalNotPassed,
    QuorumNotReached,
    ProposalNotQueued,
    TimelockNotExpired,
    InvalidThreshold,
    ProposalExists,
    AlreadyApproved,
    InsufficientApprovals,
    AlreadyClaimed,
    InvalidProof,
    DeltaOutOfRange,
    AuctionClosed,
    BidTooLow,
    NoBids,
    AuctionNotEnded,
    MinIncrementNotPositive,
    BelowMinIncrement,
    RefundFailed,
    InvalidBorrow,
    BorrowLimitExceeded,
    MintFailed,
    ProofConsumed,
    TokenNotFound,
    SellerMismatch,
    NoListing,
    PriceTooLow,
    DepthExceeded,
    InsufficientPoolBalance,
    InvariantViolated,
    TransferFailed,
    AdminRequired,
    NoPendingAdmin,
    BelowMinimumDeposit,
    ZeroShares,
    DepositCapExceeded,
    EscrowNotFound,
    InsufficientEscrowBalance,
}

} // verus!
