//! An NFT marketplace where buyers name the seller and price themselves.
use vstd::prelude::*;
use crate::host::{Addr, Env, Error, env_after};
use crate::table::{Table, value_or};
use crate::ledger::{moved, move_fits};

pub mod secure;

verus! {

/// A token offered by `seller` at `price`.
#[derive(Clone, Copy, Debug, PartialEq, Eq, Structural)]
pub struct Listing {
    pub seller: Addr,
    pub price: i128,
}

/// Owners of tokens, balances of accounts and listings of tokens.
pub struct Market {
    owners: Table<u64, Addr>,
    balances: Table<Addr, i128>,
    listings: Table<u64, Listing>,
}

impl Market {
    pub closed spec fn owners(&self) -> Map<u64, Addr> {
        self.owners@
    }

    pub closed spec fn balances(&self) -> Map<Addr, i128> {
        self.balances@
    }

    pub closed spec fn listings(&self) -> Map<u64, Listing> {
        self.listings@
    }

    /// The balance of `a`, zero if none.
    pub open spec fn bal(&self, a: Addr) -> int {
        value_or(self.balances(), a, 0i128) as int
    }

    /// An empty market.
    pub fn new() -> (m: Self)
        ensures
            m.owners() == Map::<u64, Addr>::empty(),
            m.balances() == Map::<Addr, i128>::empty(),
            m.listings() == Map::<u64, Listing>::empty(),
    {
        Market { owners: Table::new(), balances: Table::new(), listings: Table::new() }
    }

    /// Makes `owner` the owner of `token_id`.
    pub fn mint(&mut self, owner: Addr, token_id: u64)
        ensures
            final(self).owners() == old(self).owners().insert(token_id, owner),
            final(self).balances() == old(self).balances(),
            final(self).listings() == old(self).listings(),
    {
        self.owners.set(token_id, owner);
    }

    /// Adds `amount` to the balance of `buyer`.
    pub fn fund(&mut self, buyer: Addr, amount: i128)
        requires
            i128::MIN <= old(self).bal(buyer) + amount <= i128::MAX,
        ensures
            final(self).balances() == old(self).balances().insert(buyer, (old(self).bal(buyer) + amount) as i128),
            final(self).owners() == old(self).owners(),
            final(self).listings() == old(self).listings(),
    {
        let bal = self.balances.amount(&buyer);
        self.balances.set(buyer, bal + amount);
    }

    /// Pays `price` from `buyer` to `seller` and gives `token_id` to `buyer`.
    fn settle(&mut self, buyer: Addr, token_id: u64, seller: Addr, price: i128)
        requires
            move_fits(old(self).balances(), buyer, seller, price),
        ensures
            final(self).balances() == moved(old(self).balances(), buyer, seller, price),
            final(self).owners() == old(self).owners().insert(token_id, buyer),
            final(self).listings() == old(self).listings(),
    {
        let buyer_bal = self.balances.amount(&buyer);
        self.balances.set(buyer, buyer_bal - price);
        let seller_bal = self.balances.amount(&seller);
        self.balances.set(seller, seller_bal + price);
        self.owners.set(token_id, buyer);
    }

    /// The owner of `token_id`, if any.
    pub fn owner_of(&self, token_id: u64) -> (r: Option<Addr>)
        ensures
            r == (if self.owners().contains_key(token_id) { Some(self.owners()[token_id]) } else { None::<Addr> }),
    {
        match self.owners.get(&token_id) {
            Some(o) => Some(*o),
            None => None,
        }
    }

    /// The balance of `account`, zero if none.
    pub fn balance_of(&self, account: Addr) -> (r: i128)
        ensures
            r == self.bal(account),
    {
        self.balances.amount(&account)
    }
}

/// A marketplace that sells a token at whatever price the buyer offers.
pub struct VulnerableMarketplace {
    market: Market,
}

impl VulnerableMarketplace {
    pub closed spec fn market(&self) -> Market {
        self.market
    }

    /// An empty marketplace.
    pub fn new() -> (c: Self)
        ensures
            c.market().owners() == Map::<u64, Addr>::empty(),
            c.market().balances() == Map::<Addr, i128>::empty(),
            c.market().listings() == Map::<u64, Listing>::empty(),
    {
        VulnerableMarketplace { market: Market::new() }
    }

    /// Makes `owner` the owner of `token_id`.
    pub fn mint(&mut self, owner: Addr, token_id: u64)
        ensures
            final(self).market().owners() == old(self).market().owners().insert(token_id, owner),
            final(self).market().balances() == old(self).market().balances(),
            final(self).market().listings() == old(self).market().listings(),
    {
        self.market.mint(owner, token_id);
    }

    /// Adds `amount` to the balance of `buyer`.
    pub fn fund(&mut self, buyer: Addr, amount: i128)
        requires
            i128::MIN <= old(self).market().bal(buyer) + amount <= i128::MAX,
        ensures
            final(self).market().balances() == old(self).market().balances().insert(
                buyer,
                (old(self).market().bal(buyer) + amount) as i128,
            ),
            final(self).market().owners() == old(self).market().owners(),
            final(self).market().listings() == old(self).market().listings(),
    {
        self.market.fund(buyer, amount);
    }

    /// Sells `token_id` to `buyer`, who must authorize, paying `price` to
    /// `seller`, who only needs to own the token: neither a listing nor the
    /// seller's consent is asked for. Refused for an unknown token, a seller
    /// who does not own it, or a buyer who cannot pay.
    pub fn buy(&mut self, env: &mut Env, buyer: Addr, token_id: u64, seller: Addr, price: i128) -> (r: Result<(), Error>)
        requires
            old(self).market().bal(buyer) >= price ==> move_fits(old(self).market().balances(), buyer, seller, price),
        ensures
            r is Err ==> *final(self) == *old(self),
            !old(self).market().owners().contains_key(token_id) ==> r == Err::<(), Error>(Error::TokenNotFound),
            old(self).market().owners().contains_key(token_id) && old(self).market().owners()[token_id] != seller
                ==> r == Err::<(), Error>(Error::SellerMismatch),
            old(self).market().owners().contains_key(token_id) && old(self).market().owners()[token_id] == seller
                && old(self).market().bal(buyer) < price ==> r == Err::<(), Error>(Error::InsufficientFunds),
            old(self).market().owners().contains_key(token_id) && old(self).market().owners()[token_id] == seller
                && old(self).market().bal(buyer) >= price ==> {
                &&& r is Ok
                &&& env_after(*old(env), *final(env), seq![buyer], seq![])
                &&& final(self).market().balances() == moved(old(self).market().balances(), buyer, seller, price)
                &&& final(self).market().owners() == old(self).market().owners().insert(token_id, buyer)
                &&& final(self).market().listings() == old(self).market().listings()
            },
    {
        env.require_auth(buyer);
        let owner = match self.market.owners.get(&token_id) {
            Some(o) => *o,
            None => {
                return Err(Error::TokenNotFound);
            },
        };
        if owner != seller {
            return Err(Error::SellerMismatch);
        }
        let buyer_bal = self.market.balances.amount(&buyer);
        if buyer_bal < price {
            return Err(Error::InsufficientFunds);
        }
        self.market.settle(buyer, token_id, seller, price);
        Ok(())
    }

    /// The owner of `token_id`, if any.
    pub fn owner_of(&self, token_id: u64) -> (r: Option<Addr>)
        ensures
            r == (if self.market().owners().contains_key(token_id) {
                Some(self.market().owners()[token_id])
            } else {
                None::<Addr>
            }),
    {
        self.market.owner_of(token_id)
    }

    /// The balance of `account`, zero if none.
    pub fn balance_of(&self, account: Addr) -> (r: i128)
        ensures
            r == self.market().bal(account),
    {
        self.market.balance_of(account)
    }
}

} // verus!
