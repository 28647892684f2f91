use soroban_guard::host::{Addr, AddrKind, Env, Error};
use soroban_guard::vulnerable::auction_close_early::secure::SecureAuction;
use soroban_guard::vulnerable::auction_close_early::VulnerableAuction;

fn setup(end_ledger: u32) -> (Env, VulnerableAuction) {
    let env = Env::new(100, addr(1000));
    let mut client = VulnerableAuction::new();
    client.initialize(end_ledger).unwrap();
    (env, client)
}

fn setup_secure(end_ledger: u32) -> (Env, SecureAuction) {
    let env = Env::new(100, addr(1000));
    let mut client = SecureAuction::new();
    client.initialize(end_ledger).unwrap();
    (env, client)
}

#[test]
fn test_vulnerable_close_before_end_ledger_succeeds() {
    let (mut env, mut client) = setup(500);
    let bidder = addr(1);
    client.bid(&mut env, bidder, 100).unwrap();
    let winner = client.close().unwrap();
    assert_eq!(winner, bidder);
    assert!(client.is_closed());
}

#[test]
fn test_close_at_end_ledger_is_valid() {
    let end_ledger = 500u32;
    let (mut env, mut client) = setup(end_ledger);
    let bidder = addr(1);
    client.bid(&mut env, bidder, 100).unwrap();
    env.sequence = end_ledger;
    assert_eq!(client.close(), Ok(bidder));
}

#[test]
fn test_secure_rejects_close_before_end_ledger() {
    let (mut env, mut client) = setup_secure(500);
    client.bid(&mut env, addr(1), 100).unwrap();
    assert_eq!(client.close(&env), Err(Error::AuctionNotEnded));
    assert!(!client.is_closed());
}

#[test]
fn test_secure_close_succeeds_after_end_ledger() {
    let end_ledger = 500u32;
    let (mut env, mut client) = setup_secure(end_ledger);
    let bidder = addr(1);
    client.bid(&mut env, bidder, 100).unwrap();
    env.sequence = end_ledger;
    assert_eq!(client.close(&env), Ok(bidder));
    assert!(client.is_closed());
}

#[test]
fn bids_after_close_and_low_bids_are_refused() {
    let (mut env, mut client) = setup_secure(100);
    assert_eq!(client.close(&env), Err(Error::NoBids));
    client.bid(&mut env, addr(1), 100).unwrap();
    assert_eq!(client.bid(&mut env, addr(2), 100), Err(Error::BidTooLow));
    assert_eq!(client.high_bid(), 100);
    assert_eq!(client.high_bidder(), Some(addr(1)));
    client.close(&env).unwrap();
    assert_eq!(client.bid(&mut env, addr(2), 200), Err(Error::AuctionClosed));
    assert_eq!(client.close(&env), Err(Error::AuctionClosed));
}

fn addr(n: u64) -> Addr {
    Addr { kind: AddrKind::Account, id0: 0, id1: 0, id2: 0, id3: n }
}
