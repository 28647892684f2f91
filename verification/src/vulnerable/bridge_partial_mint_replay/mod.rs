//! A bridge that mints against proofs, each of which may be redeemed once.
use vstd::prelude::*;
use crate::host::{Addr, Error};
use crate::table::{Table, value_or};

pub mod secure;

verus! {

/// Whether `a` and `b` hold the same bytes.
pub fn bytes_eq(a: &Vec<u8>, b: &Vec<u8>) -> (r: bool)
    ensures
        r == (a@ == b@),
{
    if a.len() != b.len() {
        return false;
    }
    let mut i: usize = 0;
    while i < a.len()
        invariant
            a@.len() == b@.len(),
            i <= a@.len(),
            forall|j: int| 0 <= j < i ==> a@[j] == b@[j],
        decreases a@.len() - i,
    {
        if a[i] != b[i] {
            return false;
        }
        i = i + 1;
    }
    assert(a@ =~= b@);
    true
}

/// A copy of `v`.
pub fn copy_bytes(v: &Vec<u8>) -> (r: Vec<u8>)
    ensures
        r@ == v@,
{
    let mut r: Vec<u8> = Vec::new();
    let mut i: usize = 0;
    while i < v.len()
        invariant
            i <= v@.len(),
            r@ == v@.take(i as int),
        decreases v@.len() - i,
    {
        r.push(v[i]);
        i = i + 1;
        assert(r@ =~= v@.take(i as int));
    }
    assert(v@.take(v@.len() as int) =~= v@);
    r
}

/// The proofs redeemed, the amount minted to each recipient, and whether
/// minting fails.
pub struct BridgeLedger {
    used: Vec<Vec<u8>>,
    minted: Table<Addr, i128>,
    mint_fails: bool,
}

impl BridgeLedger {
    /// The proofs redeemed.
    pub closed spec fn used(&self) -> Set<Seq<u8>> {
        Set::new(|p: Seq<u8>| exists|i: int| 0 <= i < self.used@.len() && #[trigger] self.used@[i]@ == p)
    }

    pub closed spec fn minted(&self) -> Map<Addr, i128> {
        self.minted@
    }

    pub closed spec fn fails(&self) -> bool {
        self.mint_fails
    }

    /// The amount minted to `a`, zero if none.
    pub open spec fn minted_to(&self, a: Addr) -> int {
        value_or(self.minted(), a, 0i128) as int
    }

    /// A bridge with nothing redeemed or minted, whose minting succeeds.
    pub fn new() -> (b: Self)
        ensures
            b.used() == Set::<Seq<u8>>::empty(),
            b.minted() == Map::<Addr, i128>::empty(),
            !b.fails(),
    {
        let b = BridgeLedger { used: Vec::new(), minted: Table::new(), mint_fails: false };
        assert(b.used() =~= Set::<Seq<u8>>::empty());
        b
    }

    /// Whether `proof_id` was redeemed.
    pub fn is_used(&self, proof_id: &Vec<u8>) -> (r: bool)
        ensures
            r == self.used().contains(proof_id@),
    {
        let mut i: usize = 0;
        while i < self.used.len()
            invariant
                i <= self.used@.len(),
                forall|j: int| 0 <= j < i ==> self.used@[j]@ != proof_id@,
            decreases self.used@.len() - i,
        {
            if bytes_eq(&self.used[i], proof_id) {
                return true;
            }
            i = i + 1;
        }
        false
    }

    /// Records `proof_id` as redeemed.
    pub fn mark_used(&mut self, proof_id: &Vec<u8>)
        ensures
            final(self).used() == old(self).used().insert(proof_id@),
            final(self).minted() == old(self).minted(),
            final(self).fails() == old(self).fails(),
    {
        self.used.push(copy_bytes(proof_id));
        proof {
            assert forall|p: Seq<u8>| #![trigger self.used().contains(p)]
                self.used().contains(p) == old(self).used().insert(proof_id@).contains(p) by {
                if old(self).used().contains(p) {
                    let i = choose|i: int| 0 <= i < old(self).used@.len() && #[trigger] old(self).used@[i]@ == p;
                    assert(self.used@[i]@ == p);
                }
                if p == proof_id@ {
                    assert(self.used@[self.used@.len() - 1]@ == p);
                }
            }
            assert(self.used() =~= old(self).used().insert(proof_id@));
        }
    }

    /// Sets whether minting fails.
    pub fn set_mint_fails(&mut self, fails: bool)
        ensures
            final(self).fails() == fails,
            final(self).used() == old(self).used(),
            final(self).minted() == old(self).minted(),
    {
        self.mint_fails = fails;
    }

    /// Mints `amount` to `recipient`; refused while minting fails.
    pub fn do_mint(&mut self, recipient: Addr, amount: i128) -> (r: Result<(), Error>)
        requires
            !old(self).fails() ==> i128::MIN <= old(self).minted_to(recipient) + amount <= i128::MAX,
        ensures
            old(self).fails() <==> r is Err,
            r is Err ==> r == Err::<(), Error>(Error::MintFailed) && *final(self) == *old(self),
            r is Ok ==> {
                &&& final(self).minted() == old(self).minted().insert(
                    recipient,
                    (old(self).minted_to(recipient) + amount) as i128,
                )
                &&& final(self).used() == old(self).used()
                &&& final(self).fails() == old(self).fails()
            },
    {
        if self.mint_fails {
            return Err(Error::MintFailed);
        }
        let bal = self.minted.amount(&recipient);
        self.minted.set(recipient, bal + amount);
        Ok(())
    }
}

/// A bridge that mints before recording the proof as redeemed.
pub struct VulnerableBridge {
    ledger: BridgeLedger,
}

impl VulnerableBridge {
    pub closed spec fn ledger(&self) -> BridgeLedger {
        self.ledger
    }

    /// A bridge with nothing redeemed or minted, whose minting succeeds.
    pub fn new() -> (c: Self)
        ensures
            c.ledger().used() == Set::<Seq<u8>>::empty(),
            c.ledger().minted() == Map::<Addr, i128>::empty(),
            !c.ledger().fails(),
    {
        VulnerableBridge { ledger: BridgeLedger::new() }
    }

    /// Makes minting succeed.
    pub fn initialize(&mut self)
        ensures
            !final(self).ledger().fails(),
            final(self).ledger().used() == old(self).ledger().used(),
            final(self).ledger().minted() == old(self).ledger().minted(),
    {
        self.ledger.set_mint_fails(false);
    }

    /// Sets whether minting fails.
    pub fn set_mint_fails(&mut self, fails: bool)
        ensures
            final(self).ledger().fails() == fails,
            final(self).ledger().used() == old(self).ledger().used(),
            final(self).ledger().minted() == old(self).ledger().minted(),
    {
        self.ledger.set_mint_fails(fails);
    }

    /// Mints `amount` to `recipient` against `proof_id` and then records the
    /// proof as redeemed. Refused for a redeemed proof or while minting fails;
    /// a refused call records nothing.
    pub fn redeem(&mut self, proof_id: &Vec<u8>, recipient: Addr, amount: i128) -> (r: Result<(), Error>)
        requires
            !old(self).ledger().fails() ==> i128::MIN <= old(self).ledger().minted_to(recipient) + amount <= i128::MAX,
        ensures
            r is Err ==> *final(self) == *old(self),
            old(self).ledger().used().contains(proof_id@) ==> r == Err::<(), Error>(Error::ProofConsumed),
            !old(self).ledger().used().contains(proof_id@) && old(self).ledger().fails()
                ==> r == Err::<(), Error>(Error::MintFailed),
            !old(self).ledger().used().contains(proof_id@) && !old(self).ledger().fails() ==> {
                &&& r is Ok
                &&& final(self).ledger().used() == old(self).ledger().used().insert(proof_id@)
                &&& final(self).ledger().minted() == old(self).ledger().minted().insert(
                    recipient,
                    (old(self).ledger().minted_to(recipient) + amount) as i128,
                )
                &&& final(self).ledger().fails() == old(self).ledger().fails()
            },
    {
        if self.ledger.is_used(proof_id) {
            return Err(Error::ProofConsumed);
        }
        if let Err(e) = self.ledger.do_mint(recipient, amount) {
            return Err(e);
        }
        self.ledger.mark_used(proof_id);
        Ok(())
    }

    /// Whether `proof_id` was redeemed.
    pub fn is_proof_used(&self, proof_id: &Vec<u8>) -> (r: bool)
        ensures
            r == self.ledger().used().contains(proof_id@),
    {
        self.ledger.is_used(proof_id)
    }

    /// The amount minted to `recipient`, zero if none.
    pub fn minted_balance(&self, recipient: Addr) -> (r: i128)
        ensures
            r == self.ledger().minted_to(recipient),
    {
        self.ledger.minted.amount(&recipient)
    }
}

} // verus!
