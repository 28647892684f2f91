use soroban_guard::host::{Addr, AddrKind, Env, Error};
use soroban_guard::vulnerable::auction_refund_block::VulnerableAuction;

fn setup() -> (Env, VulnerableAuction) {
    let env = Env::new(0, addr(1000));
    let mut client = VulnerableAuction::new();
    client.initialize().unwrap();
    (env, client)
}

#[test]
fn test_normal_bid_sequence_works() {
    let (mut env, mut client) = setup();
    let (first, second) = (addr(1), addr(2));
    client.bid(&mut env, first, 100).unwrap();
    assert_eq!(client.high_bid(), 100);
    client.bid(&mut env, second, 200).unwrap();
    assert_eq!(client.high_bid(), 200);
    assert_eq!(client.high_bidder(), Some(second));
}

#[test]
fn test_vulnerable_refund_block_freezes_auction() {
    let (mut env, mut client) = setup();
    let first = addr(1);
    client.bid(&mut env, first, 100).unwrap();
    client.set_refund_blocked(true);
    assert_eq!(client.bid(&mut env, addr(2), 200), Err(Error::RefundFailed));
    assert_eq!(client.high_bid(), 100);
    assert_eq!(client.high_bidder(), Some(first));
}

#[test]
fn first_bid_needs_no_refund_and_low_bids_fail() {
    let (mut env, mut client) = setup();
    client.set_refund_blocked(true);
    client.bid(&mut env, addr(1), 100).unwrap();
    assert_eq!(client.bid(&mut env, addr(2), 100), Err(Error::BidTooLow));
    assert_eq!(client.initialize(), Err(Error::AlreadyInitialized));
}

fn addr(n: u64) -> Addr {
    Addr { kind: AddrKind::Account, id0: 0, id1: 0, id2: 0, id3: n }
}
