//! A bridge that records a proof as redeemed before minting against it.
use vstd::prelude::*;
use crate::host::{Addr, Error};
use super::BridgeLedger;

verus! {

/// A bridge that consumes the proof first; a failed mint reverts the call,
/// and with it the consumption.
pub struct SecureBridge {
    ledger: BridgeLedger,
}

impl SecureBridge {
    pub closed spec fn ledger(&self) -> BridgeLedger {
        self.ledger
    }

    /// A bridge with nothing redeemed or minted, whose minting succeeds.
    pub fn new() -> (c: Self)
        ensures
            c.ledger().used() == Set::<Seq<u8>>::empty(),
            c.ledger().minted() == Map::<Addr, i128>::empty(),
            !c.ledger().fails(),
    {
        SecureBridge { ledger: BridgeLedger::new() }
    }

    /// Makes minting succeed.
    pub fn initialize(&mut self)
        ensures
            !final(self).ledger().fails(),
            final(self).ledger().used() == old(self).ledger().used(),
            final(self).ledger().minted() == old(self).ledger().minted(),
    {
        self.ledger.set_mint_fails(false);
    }

    /// Sets whether minting fails.
    pub fn set_mint_fails(&mut self, fails: bool)
        ensures
            final(self).ledger().fails() == fails,
            final(self).ledger().used() == old(self).ledger().used(),
            final(self).ledger().minted() == old(self).ledger().minted(),
    {
        self.ledger.set_mint_fails(fails);
    }

    /// Records `proof_id` as redeemed and then mints `amount` to
    /// `recipient`. Refused for a redeemed proof or while minting fails; as a
    /// failed mint reverts the whole call, a refused call leaves the proof
    /// unredeemed.
    pub fn redeem(&mut self, proof_id: &Vec<u8>, recipient: Addr, amount: i128) -> (r: Result<(), Error>)
        requires
            !old(self).ledger().fails() ==> i128::MIN <= old(self).ledger().minted_to(recipient) + amount <= i128::MAX,
        ensures
            old(self).ledger().used().subset_of(final(self).ledger().used()),
            r is Ok ==> final(self).ledger().used().contains(proof_id@),
            r is Err ==> *final(self) == *old(self),
            old(self).ledger().used().contains(proof_id@) ==> r == Err::<(), Error>(Error::ProofConsumed),
            !old(self).ledger().used().contains(proof_id@) && old(self).ledger().fails()
                ==> r == Err::<(), Error>(Error::MintFailed),
            !old(self).ledger().used().contains(proof_id@) && !old(self).ledger().fails() ==> {
                &&& r is Ok
                &&& final(self).ledger().used() == old(self).ledger().used().insert(proof_id@)
                &&& final(self).ledger().minted() == old(self).ledger().minted().insert(
                    recipient,
                    (old(self).ledger().minted_to(recipient) + amount) as i128,
                )
                &&& final(self).ledger().fails() == old(self).ledger().fails()
            },
    {
        if self.ledger.is_used(proof_id) {
            return Err(Error::ProofConsumed);
        }
        if self.ledger.mint_fails {
            return Err(Error::MintFailed);
        }
        self.ledger.mark_used(proof_id);
        if let Err(e) = self.ledger.do_mint(recipient, amount) {
            return Err(e);
        }
        Ok(())
    }

    /// Whether `proof_id` was redeemed.
    pub fn is_proof_used(&self, proof_id: &Vec<u8>) -> (r: bool)
        ensures
            r == self.ledger().used().contains(proof_id@),
    {
        self.ledger.is_used(proof_id)
    }

    /// The amount minted to `recipient`, zero if none.
    pub fn minted_balance(&self, recipient: Addr) -> (r: i128)
        ensures
            r == self.ledger().minted_to(recipient),
    {
        self.ledger.minted.amount(&recipient)
    }
}

} // verus!
