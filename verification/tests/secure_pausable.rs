use soroban_guard::host::{Addr, AddrKind, Env, Error, Event};
use soroban_guard::secure::secure_pausable::SecurePausable;

fn setup() -> (Env, SecurePausable, Addr) {
    let env = Env::new(0, addr(1000));
    let mut client = SecurePausable::new();
    let admin = addr(1);
    client.initialize(admin).unwrap();
    (env, client, admin)
}

#[test]
fn test_transfer_fails_when_paused() {
    let (mut env, mut client, _admin) = setup();
    let (alice, bob) = (addr(2), addr(3));
    client.mint(&mut env, alice, 500).unwrap();
    client.pause(&mut env).unwrap();
    assert_eq!(client.transfer(&mut env, alice, bob, 100), Err(Error::Paused));
    assert_eq!(client.balance(alice), 500);
}

#[test]
fn test_transfer_succeeds_after_unpause() {
    let (mut env, mut client, _admin) = setup();
    let (alice, bob) = (addr(2), addr(3));
    client.mint(&mut env, alice, 500).unwrap();
    client.pause(&mut env).unwrap();
    client.unpause(&mut env).unwrap();
    client.transfer(&mut env, alice, bob, 200).unwrap();
    assert_eq!(client.balance(alice), 300);
    assert_eq!(client.balance(bob), 200);
}

#[test]
fn test_non_admin_cannot_pause() {
    let (_env, mut client, admin) = setup();
    let mut env2 = Env::new(0, addr(1000));
    client.pause(&mut env2).unwrap();
    assert_eq!(env2.auths, vec![admin]);
}

#[test]
fn test_non_admin_cannot_unpause() {
    let (mut env, mut client, admin) = setup();
    client.pause(&mut env).unwrap();
    let mut env2 = Env::new(0, addr(1000));
    client.unpause(&mut env2).unwrap();
    assert_eq!(env2.auths, vec![admin]);
}

#[test]
fn test_pause_state_persists() {
    let (mut env, mut client, _admin) = setup();
    assert!(!client.is_paused());
    client.pause(&mut env).unwrap();
    assert!(client.is_paused());
    client.unpause(&mut env).unwrap();
    assert!(!client.is_paused());
}

#[test]
fn test_admin_rotation() {
    let (mut env, mut client, admin) = setup();
    let new_admin = addr(4);
    client.set_admin(&mut env, new_admin).unwrap();
    assert_eq!(client.get_admin(), Ok(new_admin));
    assert_eq!(env.auths, vec![admin]);
}

#[test]
fn uninitialized_contract_refuses_admin_calls() {
    let mut env = Env::new(0, addr(1000));
    let mut client = SecurePausable::new();
    assert_eq!(client.pause(&mut env), Err(Error::NotInitialized));
    assert_eq!(client.mint(&mut env, addr(1), 5), Err(Error::NotInitialized));
    assert_eq!(client.get_admin(), Err(Error::NotInitialized));
    client.initialize(addr(1)).unwrap();
    assert_eq!(client.initialize(addr(2)), Err(Error::AlreadyInitialized));
    assert_eq!(client.transfer(&mut env, addr(2), addr(3), i128::MIN), Err(Error::InsufficientBalance));
    client.transfer(&mut env, addr(2), addr(3), 1).unwrap();
    assert_eq!(client.balance(addr(2)), -1);
}

#[test]
fn pause_and_unpause_publish_events() {
    let (mut env, mut client, admin) = setup();
    client.pause(&mut env).unwrap();
    client.unpause(&mut env).unwrap();
    assert_eq!(env.events, vec![Event::Paused { admin }, Event::Unpaused { admin }]);
}

fn addr(n: u64) -> Addr {
    Addr { kind: AddrKind::Account, id0: 0, id1: 0, id2: 0, id3: n }
}
