use soroban_guard::host::{Addr, AddrKind, Env, Error};
use soroban_guard::secure::secure_transfer::SecureToken;

#[test]
fn test_normal_transfer() {
    let mut env = Env::new(0, addr(1000));
    let mut client = SecureToken::new();
    let (alice, bob) = (addr(1), addr(2));
    client.mint(alice, 500).unwrap();
    client.mint(bob, 100).unwrap();
    client.transfer(&mut env, alice, bob, 200).unwrap();
    assert_eq!(client.balance(alice), 300);
    assert_eq!(client.balance(bob), 300);
}

#[test]
fn lib_test_self_transfer_rejected() {
    let mut env = Env::new(0, addr(1000));
    let mut client = SecureToken::new();
    let alice = addr(1);
    client.mint(alice, 500).unwrap();
    assert_eq!(client.transfer(&mut env, alice, alice, 100), Err(Error::SelfTransfer));
    assert_eq!(client.balance(alice), 500);
}

#[test]
fn test_transfer_requires_auth() {
    let mut env = Env::new(0, addr(1000));
    let mut client = SecureToken::new();
    let (alice, bob) = (addr(1), addr(2));
    client.mint(alice, 500).unwrap();
    client.transfer(&mut env, alice, bob, 100).unwrap();
    assert_eq!(env.auths, vec![alice]);
}

#[test]
fn test_balance_defaults_to_zero() {
    let client = SecureToken::new();
    assert_eq!(client.balance(addr(7)), 0);
}

fn addr(n: u64) -> Addr {
    Addr { kind: AddrKind::Account, id0: 0, id1: 0, id2: 0, id3: n }
}
