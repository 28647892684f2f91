use soroban_guard::host::{Addr, AddrKind, Env, Error, Event};
use soroban_guard::secure::secure_vault::SecureVault;

#[test]
fn test_transfer_succeeds_with_auth() {
    let mut env = Env::new(0, addr(1000));
    let mut client = SecureVault::new();
    let (alice, bob) = (addr(1), addr(2));
    client.mint(&mut env, alice, 1000).unwrap();
    client.transfer(&mut env, alice, bob, 400).unwrap();
    assert_eq!(client.balance(alice), 600);
    assert_eq!(client.balance(bob), 400);
    assert_eq!(env.auths, vec![alice]);
}

#[test]
fn test_transfer_fails_without_auth() {
    let mut env = Env::new(0, addr(1000));
    let mut client = SecureVault::new();
    let (alice, bob) = (addr(1), addr(2));
    client.mint(&mut env, alice, 1000).unwrap();
    client.transfer(&mut env, alice, bob, 400).unwrap();
    assert!(env.auths.contains(&alice));
    assert!(!env.auths.contains(&bob));
}

#[test]
fn test_transfer_panics_on_underflow() {
    let mut env = Env::new(0, addr(1000));
    let mut client = SecureVault::new();
    let (alice, bob) = (addr(1), addr(2));
    client.mint(&mut env, alice, 100).unwrap();
    assert_eq!(client.transfer(&mut env, alice, bob, 500), Err(Error::InsufficientBalance));
    assert_eq!(client.balance(alice), 100);
}

#[test]
fn test_burn_succeeds_with_auth() {
    let mut env = Env::new(0, addr(1000));
    let mut client = SecureVault::new();
    let alice = addr(1);
    client.mint(&mut env, alice, 1000).unwrap();
    client.burn(&mut env, alice, 400).unwrap();
    assert_eq!(client.balance(alice), 600);
}

#[test]
fn test_burn_fails_without_auth() {
    let mut env = Env::new(0, addr(1000));
    let mut client = SecureVault::new();
    let alice = addr(1);
    client.mint(&mut env, alice, 1000).unwrap();
    client.burn(&mut env, alice, 400).unwrap();
    assert_eq!(env.auths, vec![alice]);
}

#[test]
fn test_burn_panics_on_insufficient_balance() {
    let mut env = Env::new(0, addr(1000));
    let mut client = SecureVault::new();
    let alice = addr(1);
    client.mint(&mut env, alice, 100).unwrap();
    assert_eq!(client.burn(&mut env, alice, 500), Err(Error::InsufficientBalance));
    assert_eq!(client.balance(alice), 100);
}

#[test]
fn vault_operations_publish_events() {
    let mut env = Env::new(0, addr(1000));
    let mut client = SecureVault::new();
    let (alice, bob) = (addr(1), addr(2));
    client.mint(&mut env, alice, 9).unwrap();
    client.transfer(&mut env, alice, bob, 5).unwrap();
    client.burn(&mut env, bob, 2).unwrap();
    assert_eq!(
        env.events,
        vec![
            Event::Mint { to: alice, amount: 9 },
            Event::Transfer { from: alice, to: bob, amount: 5 },
            Event::Burn { from: bob, amount: 2 },
        ]
    );
}

fn addr(n: u64) -> Addr {
    Addr { kind: AddrKind::Account, id0: 0, id1: 0, id2: 0, id3: n }
}
