use soroban_guard::host::{Addr, AddrKind, Env, Error};
use soroban_guard::table::Table;
use soroban_guard::vulnerable::allowance_not_decremented::secure::SecureToken;
use soroban_guard::vulnerable::allowance_not_decremented::{do_transfer, VulnerableToken};

fn setup() -> (Env, VulnerableToken, Addr, Addr, Addr) {
    let mut env = Env::new(0, addr(1000));
    let mut client = VulnerableToken::new();
    let (owner, spender, recipient) = (addr(1), addr(2), addr(3));
    client.mint(owner, 1000);
    client.approve(&mut env, owner, spender, 300);
    (env, client, owner, spender, recipient)
}

fn setup_secure() -> (Env, SecureToken, Addr, Addr, Addr) {
    let mut env = Env::new(0, addr(1000));
    let mut client = SecureToken::new();
    let (owner, spender, recipient) = (addr(1), addr(2), addr(3));
    client.mint(owner, 1000);
    client.approve(&mut env, owner, spender, 300);
    (env, client, owner, spender, recipient)
}

#[test]
fn test_first_transfer_from_succeeds() {
    let (mut env, mut client, owner, spender, recipient) = setup();
    client.transfer_from(&mut env, spender, owner, recipient, 300).unwrap();
    assert_eq!(client.balance(owner), 700);
    assert_eq!(client.balance(recipient), 300);
}

#[test]
fn test_second_transfer_from_reuses_allowance() {
    let (mut env, mut client, owner, spender, recipient) = setup();
    client.transfer_from(&mut env, spender, owner, recipient, 300).unwrap();
    assert_eq!(client.allowance(owner, spender), 300);
    client.transfer_from(&mut env, spender, owner, recipient, 300).unwrap();
    assert_eq!(client.balance(owner), 400);
    assert_eq!(client.balance(recipient), 600);
}

#[test]
fn test_transfer_from_decrements_allowance() {
    let (mut env, mut client, owner, spender, recipient) = setup_secure();
    client.transfer_from(&mut env, spender, owner, recipient, 300).unwrap();
    assert_eq!(client.balance(owner), 700);
    assert_eq!(client.balance(recipient), 300);
    assert_eq!(client.allowance(owner, spender), 0);
}

#[test]
fn test_second_transfer_from_rejected() {
    let (mut env, mut client, owner, spender, recipient) = setup_secure();
    client.transfer_from(&mut env, spender, owner, recipient, 300).unwrap();
    assert_eq!(
        client.transfer_from(&mut env, spender, owner, recipient, 300),
        Err(Error::InsufficientAllowance)
    );
    assert_eq!(client.balance(owner), 700);
}

#[test]
fn do_transfer_moves_or_refuses() {
    let mut balances: Table<Addr, i128> = Table::new();
    balances.set(addr(1), 10);
    assert_eq!(do_transfer(&mut balances, addr(1), addr(2), 11), Err(Error::InsufficientBalance));
    do_transfer(&mut balances, addr(1), addr(2), 4).unwrap();
    assert_eq!(balances.get(&addr(1)), Some(&6));
    assert_eq!(balances.get(&addr(2)), Some(&4));
}

fn addr(n: u64) -> Addr {
    Addr { kind: AddrKind::Account, id0: 0, id1: 0, id2: 0, id3: n }
}
