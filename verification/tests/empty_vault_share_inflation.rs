use soroban_guard::host::{Addr, AddrKind, Env, Error};
use soroban_guard::vulnerable::empty_vault_share_inflation::secure::SecureVault;
use soroban_guard::vulnerable::empty_vault_share_inflation::VulnerableVault;

#[test]
fn test_share_inflation_victim_gets_zero_shares() {
    let mut env = Env::new(0, addr(1000));
    let mut client = VulnerableVault::new();
    let (attacker, victim) = (addr(1), addr(2));
    client.deposit(&mut env, attacker, 1).unwrap();
    assert_eq!(client.shares_of(attacker), 1);
    client.donate(1_000_000).unwrap();
    assert_eq!(client.deposit(&mut env, victim, 500_000), Err(Error::ZeroShares));
    assert_eq!(client.shares_of(victim), 0);
}

#[test]
fn test_attacker_seed_deposit_succeeds() {
    let mut env = Env::new(0, addr(1000));
    let mut client = VulnerableVault::new();
    let attacker = addr(1);
    client.deposit(&mut env, attacker, 1).unwrap();
    assert_eq!(client.shares_of(attacker), 1);
    assert_eq!(client.total_assets(), 1);
}

#[test]
fn test_secure_victim_receives_fair_shares() {
    let mut env = Env::new(0, addr(1000));
    let mut client = SecureVault::new();
    let (attacker, victim) = (addr(1), addr(2));
    client.deposit(&mut env, attacker, 1).unwrap();
    client.donate(1_000_000).unwrap();
    client.deposit(&mut env, victim, 500_000).unwrap();
    let victim_shares = client.shares_of(victim);
    assert!(victim_shares > 0);
    assert_eq!(victim_shares, 499);
}

#[test]
fn share_arithmetic_on_concrete_values() {
    let mut env = Env::new(0, addr(1000));
    let mut client = VulnerableVault::new();
    client.deposit(&mut env, addr(1), 100).unwrap();
    client.deposit(&mut env, addr(2), 50).unwrap();
    assert_eq!(client.shares_of(addr(2)), 50);
    assert_eq!(client.total_shares(), 150);
    assert_eq!(client.donate(0), Err(Error::AmountNotPositive));
    assert_eq!(client.deposit(&mut env, addr(2), 0), Err(Error::AmountNotPositive));
    let mut secure = SecureVault::new();
    secure.deposit(&mut env, addr(1), 10).unwrap();
    assert_eq!(secure.shares_of(addr(1)), 10);
    assert_eq!(secure.total_assets(), 10);
    assert_eq!(secure.total_shares(), 10);
}

fn addr(n: u64) -> Addr {
    Addr { kind: AddrKind::Account, id0: 0, id1: 0, id2: 0, id3: n }
}
