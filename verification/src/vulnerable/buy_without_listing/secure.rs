//! An NFT marketplace that sells only listed tokens at the listed price.
use vstd::prelude::*;
use crate::host::{Addr, Env, Error, env_after};
use super::{Listing, Market};
use crate::ledger::{moved, move_fits};

verus! {

/// A marketplace whose sales follow the seller's listing.
pub struct SecureMarketplace {
    market: Market,
}

impl SecureMarketplace {
    pub closed spec fn market(&self) -> Market {
        self.market
    }

    /// An empty marketplace.
    pub fn new() -> (c: Self)
        ensures
            c.market().owners() == Map::<u64, Addr>::empty(),
            c.market().balances() == Map::<Addr, i128>::empty(),
            c.market().listings() == Map::<u64, Listing>::empty(),
    {
        SecureMarketplace { market: Market::new() }
    }

    /// Makes `owner` the owner of `token_id`.
    pub fn mint(&mut self, owner: Addr, token_id: u64)
        ensures
            final(self).market().owners() == old(self).market().owners().insert(token_id, owner),
            final(self).market().balances() == old(self).market().balances(),
            final(self).market().listings() == old(self).market().listings(),
    {
        self.market.mint(owner, token_id);
    }

    /// Adds `amount` to the balance of `buyer`.
    pub fn fund(&mut self, buyer: Addr, amount: i128)
        requires
            i128::MIN <= old(self).market().bal(buyer) + amount <= i128::MAX,
        ensures
            final(self).market().balances() == old(self).market().balances().insert(
                buyer,
                (old(self).market().bal(buyer) + amount) as i128,
            ),
            final(self).market().owners() == old(self).market().owners(),
            final(self).market().listings() == old(self).market().listings(),
    {
        self.market.fund(buyer, amount);
    }

    /// Lists `token_id` at `price`; `seller` must authorize and own it.
    pub fn list(&mut self, env: &mut Env, seller: Addr, token_id: u64, price: i128) -> (r: Result<(), Error>)
        ensures
            r is Err ==> *final(self) == *old(self),
            !old(self).market().owners().contains_key(token_id) ==> r == Err::<(), Error>(Error::TokenNotFound),
            old(self).market().owners().contains_key(token_id) && old(self).market().owners()[token_id] != seller
                ==> r == Err::<(), Error>(Error::NotOwner),
            old(self).market().owners().contains_key(token_id) && old(self).market().owners()[token_id] == seller ==> {
                &&& r is Ok
                &&& env_after(*old(env), *final(env), seq![seller], seq![])
                &&& final(self).market().listings() == old(self).market().listings().insert(token_id, Listing { seller, price })
                &&& final(self).market().owners() == old(self).market().owners()
                &&& final(self).market().balances() == old(self).market().balances()
            },
    {
        env.require_auth(seller);
        let owner = match self.market.owners.get(&token_id) {
            Some(o) => *o,
            None => {
                return Err(Error::TokenNotFound);
            },
        };
        if owner != seller {
            return Err(Error::NotOwner);
        }
        self.market.listings.set(token_id, Listing { seller, price });
        Ok(())
    }

    /// Sells listed `token_id` to `buyer`, who must authorize, at the listed
    /// price, paid to the listing's seller, and closes the listing. Refused
    /// without a listing, when the price exceeds `max_price`, or when the
    /// buyer cannot pay.
    pub fn buy(&mut self, env: &mut Env, buyer: Addr, token_id: u64, max_price: i128) -> (r: Result<(), Error>)
        requires
            old(self).market().listings().contains_key(token_id) ==> {
                let l = old(self).market().listings()[token_id];
                old(self).market().bal(buyer) >= l.price ==> move_fits(old(self).market().balances(), buyer, l.seller, l.price)
            },
        ensures
            r is Err ==> *final(self) == *old(self),
            !old(self).market().listings().contains_key(token_id) ==> r == Err::<(), Error>(Error::NoListing),
            old(self).market().listings().contains_key(token_id) ==> {
                let l = old(self).market().listings()[token_id];
                &&& max_price < l.price ==> r == Err::<(), Error>(Error::PriceTooLow)
                &&& max_price >= l.price && old(self).market().bal(buyer) < l.price
                    ==> r == Err::<(), Error>(Error::InsufficientFunds)
                &&& max_price >= l.price && old(self).market().bal(buyer) >= l.price ==> {
                    &&& r is Ok
                    &&& env_after(*old(env), *final(env), seq![buyer], seq![])
                    &&& final(self).market().balances() == moved(old(self).market().balances(), buyer, l.seller, l.price)
                    &&& final(self).market().owners() == old(self).market().owners().insert(token_id, buyer)
                    &&& final(self).market().listings() == old(self).market().listings().remove(token_id)
                }
            },
    {
        env.require_auth(buyer);
        let listing = match self.market.listings.get(&token_id) {
            Some(l) => *l,
            None => {
                return Err(Error::NoListing);
            },
        };
        if max_price < listing.price {
            return Err(Error::PriceTooLow);
        }
        let buyer_bal = self.market.balances.amount(&buyer);
        if buyer_bal < listing.price {
            return Err(Error::InsufficientFunds);
        }
        self.market.settle(buyer, token_id, listing.seller, listing.price);
        self.market.listings.remove(token_id);
        Ok(())
    }

    /// The owner of `token_id`, if any.
    pub fn owner_of(&self, token_id: u64) -> (r: Option<Addr>)
        ensures
            r == (if self.market().owners().contains_key(token_id) {
                Some(self.market().owners()[token_id])
            } else {
                None::<Addr>
            }),
    {
        self.market.owner_of(token_id)
    }

    /// The balance of `account`, zero if none.
    pub fn balance_of(&self, account: Addr) -> (r: i128)
        ensures
            r == self.market().bal(account),
    {
        self.market.balance_of(account)
    }
}

} // verus!
