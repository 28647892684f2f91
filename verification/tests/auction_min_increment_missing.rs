use soroban_guard::host::{Addr, AddrKind, Env, Error};
use soroban_guard::vulnerable::auction_min_increment_missing::secure::SecureAuction;
use soroban_guard::vulnerable::auction_min_increment_missing::VulnerableAuction;

fn setup(min_increment: i128) -> (Env, VulnerableAuction) {
    let env = Env::new(0, addr(1000));
    let mut client = VulnerableAuction::new();
    client.initialize(min_increment).unwrap();
    (env, client)
}

fn setup_secure(min_increment: i128) -> (Env, SecureAuction) {
    let env = Env::new(0, addr(1000));
    let mut client = SecureAuction::new();
    client.initialize(min_increment).unwrap();
    (env, client)
}

#[test]
fn test_vulnerable_accepts_sub_increment_bid() {
    let (mut env, mut client) = setup(100);
    client.bid(&mut env, addr(1), 1000).unwrap();
    assert_eq!(client.high_bid(), 1000);
    let griefer = addr(2);
    client.bid(&mut env, griefer, 1001).unwrap();
    assert_eq!(client.high_bid(), 1001);
    assert_eq!(client.high_bidder(), Some(griefer));
}

#[test]
fn test_boundary_exact_increment_accepted_in_vulnerable() {
    let (mut env, mut client) = setup(100);
    client.bid(&mut env, addr(1), 1000).unwrap();
    client.bid(&mut env, addr(2), 1100).unwrap();
    assert_eq!(client.high_bid(), 1100);
}

#[test]
fn test_secure_rejects_sub_increment_bid() {
    let (mut env, mut client) = setup_secure(100);
    client.bid(&mut env, addr(1), 1000).unwrap();
    assert_eq!(client.bid(&mut env, addr(2), 1001), Err(Error::BelowMinIncrement));
    assert_eq!(client.high_bid(), 1000);
}

#[test]
fn test_secure_accepts_exact_increment_bid() {
    let (mut env, mut client) = setup_secure(100);
    client.bid(&mut env, addr(1), 1000).unwrap();
    client.bid(&mut env, addr(2), 1100).unwrap();
    assert_eq!(client.high_bid(), 1100);
}

#[test]
fn increments_must_be_positive() {
    let mut client = SecureAuction::new();
    let mut env = Env::new(0, addr(1000));
    assert_eq!(client.bid(&mut env, addr(1), 5), Err(Error::NotInitialized));
    assert_eq!(client.initialize(0), Err(Error::MinIncrementNotPositive));
    client.initialize(10).unwrap();
    assert_eq!(client.min_increment(), 10);
    assert_eq!(client.initialize(20), Err(Error::AlreadyInitialized));
    assert_eq!(client.bid(&mut env, addr(1), 9), Err(Error::BelowMinIncrement));
    let mut vulnerable = VulnerableAuction::new();
    assert_eq!(vulnerable.min_increment(), 0);
    assert_eq!(vulnerable.bid(&mut env, addr(1), 0), Err(Error::BidTooLow));
}

fn addr(n: u64) -> Addr {
    Addr { kind: AddrKind::Account, id0: 0, id1: 0, id2: 0, id3: n }
}
