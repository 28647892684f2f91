//! A capped vault that checks the amount actually received against the cap.
use vstd::prelude::*;
use crate::host::{Addr, Env, Error, env_after};
use super::{deposit_fits, received, Token, DEPOSIT_CAP};

verus! {

/// The total credited and the token accepted.
pub struct SecureDepositCap {
    total_credited: i128,
    token: Option<Addr>,
}

impl SecureDepositCap {
    pub closed spec fn total(&self) -> i128 {
        self.total_credited
    }

    pub closed spec fn token(&self) -> Option<Addr> {
        self.token
    }

    /// A vault with nothing credited and no token.
    pub fn new() -> (c: Self)
        ensures
            c.total() == 0,
            c.token() is None,
    {
        SecureDepositCap { total_credited: 0, token: None }
    }

    /// Sets the token accepted.
    pub fn initialize(&mut self, token: Addr)
        ensures
            final(self).token() == Some(token),
            final(self).total() == old(self).total(),
    {
        self.token = Some(token);
    }

    /// Takes `amount` of the token contract `token_contract` from `user`,
    /// who must authorize, into this vault, and credits what the vault's
    /// balance grew by, whatever the token delivered, provided the credited
    /// total stays within the cap. Refused for a non-positive amount, before
    /// initialization, when the token refuses the transfer (with the token's
    /// own error), or when the cap would be exceeded; a refused deposit
    /// leaves the vault and the token as they were.
    pub fn deposit<T: Token>(&mut self, env: &mut Env, token_contract: &mut T, user: Addr, amount: i128) -> (r: Result<(), Error>)
        requires
            amount > 0 && old(self).token() is Some ==> deposit_fits::<T>(
                old(token_contract).ledger(),
                old(self).total(),
                user,
                old(env).current_contract,
                amount,
            ),
        ensures
            old(self).total() <= DEPOSIT_CAP ==> final(self).total() <= DEPOSIT_CAP,
            r is Err ==> *final(self) == *old(self) && final(token_contract).ledger() == old(token_contract).ledger(),
            amount <= 0 ==> r == Err::<(), Error>(Error::AmountNotPositive),
            amount > 0 && old(self).token() is None ==> r == Err::<(), Error>(Error::NotInitialized),
            amount > 0 && old(self).token() is Some ==> {
                let vault = old(env).current_contract;
                let sent = T::after_transfer(old(token_contract).ledger(), user, vault, amount);
                let got = received::<T>(old(token_contract).ledger(), user, vault, amount);
                &&& sent.1 is Err ==> r == sent.1
                &&& sent.1 is Ok && old(self).total() + got > DEPOSIT_CAP ==> r == Err::<(), Error>(Error::DepositCapExceeded)
                &&& sent.1 is Ok && old(self).total() + got <= DEPOSIT_CAP ==> {
                    &&& r is Ok
                    &&& env_after(*old(env), *final(env), seq![user], seq![])
                    &&& final(token_contract).ledger() == sent.0
                    &&& final(self).total() == old(self).total() + got
                    &&& final(self).token() == old(self).token()
                }
            },
    {
        env.require_auth(user);
        if amount <= 0 {
            return Err(Error::AmountNotPositive);
        }
        if self.token.is_none() {
            return Err(Error::NotInitialized);
        }
        let vault = env.current_contract;
        let saved = token_contract.snapshot();
        let pre = token_contract.balance(vault);
        if let Err(e) = token_contract.transfer(user, vault, amount) {
            *token_contract = saved;
            return Err(e);
        }
        let post = token_contract.balance(vault);
        let received = post - pre;
        if let Err(e) = self.credit_received(received) {
            *token_contract = saved;
            return Err(e);
        }
        Ok(())
    }

    /// Credits `received`, what the vault's balance grew by in a deposit,
    /// whatever token delivered it, provided the credited total stays within
    /// `DEPOSIT_CAP`; refused otherwise, crediting nothing. A total within
    /// the cap stays within it.
    pub fn credit_received(&mut self, received: i128) -> (r: Result<(), Error>)
        requires
            i128::MIN <= old(self).total() + received <= i128::MAX,
        ensures
            old(self).total() <= DEPOSIT_CAP ==> final(self).total() <= DEPOSIT_CAP,
            old(self).total() + received > DEPOSIT_CAP <==> r is Err,
            r is Err ==> r == Err::<(), Error>(Error::DepositCapExceeded) && *final(self) == *old(self),
            r is Ok ==> final(self).total() == old(self).total() + received && final(self).token() == old(self).token(),
    {
        let total = self.total_credited;
        if total + received > DEPOSIT_CAP {
            return Err(Error::DepositCapExceeded);
        }
        self.total_credited = total + received;
        Ok(())
    }

    /// The total credited.
    pub fn total_credited(&self) -> (r: i128)
        ensures
            r == self.total(),
    {
        self.total_credited
    }
}

} // verus!
