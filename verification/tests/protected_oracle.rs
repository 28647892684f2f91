use soroban_guard::host::{Addr, AddrKind, Env, Error};
use soroban_guard::secure::protected_oracle::{ProtectedOracle, MIN_DELAY};

fn setup() -> (Env, Addr, ProtectedOracle) {
    let env = Env::new(0, addr(1000));
    let mut client = ProtectedOracle::new();
    let admin = addr(1);
    client.initialize(admin).unwrap();
    (env, admin, client)
}

#[test]
fn test_get_price_same_ledger_panics() {
    let (mut env, admin, mut client) = setup();
    env.sequence = 100;
    client.set_price(&mut env, admin, 500).unwrap();
    assert_eq!(client.get_price(&env), Err(Error::DelayNotElapsed));
}

#[test]
fn test_get_price_before_delay_panics() {
    let (mut env, admin, mut client) = setup();
    env.sequence = 100;
    client.set_price(&mut env, admin, 500).unwrap();
    env.sequence = 104;
    assert_eq!(client.get_price(&env), Err(Error::DelayNotElapsed));
}

#[test]
fn test_get_price_after_delay_succeeds() {
    let (mut env, admin, mut client) = setup();
    env.sequence = 100;
    client.set_price(&mut env, admin, 500).unwrap();
    env.sequence = 105;
    assert_eq!(client.get_price(&env), Ok(500));
}

#[test]
fn test_flash_loan_attack_blocked() {
    let (mut env, admin, mut client) = setup();
    env.sequence = 50;
    client.set_price(&mut env, admin, 1000).unwrap();
    assert_eq!(client.get_price(&env), Err(Error::DelayNotElapsed));
}

#[test]
fn only_the_admin_sets_prices() {
    let (mut env, admin, mut client) = setup();
    assert_eq!(client.set_price(&mut env, addr(9), 7), Err(Error::NotAdmin));
    assert_eq!(client.updated_at(), 0);
    client.set_price(&mut env, admin, 7).unwrap();
    assert_eq!(env.auths, vec![addr(9), admin]);
    assert_eq!(client.min_delay(), MIN_DELAY);
    assert_eq!(client.initialize(addr(2)), Err(Error::AlreadyInitialized));
    let mut fresh = ProtectedOracle::new();
    assert_eq!(fresh.set_price(&mut env, admin, 1), Err(Error::NotInitialized));
}

fn addr(n: u64) -> Addr {
    Addr { kind: AddrKind::Account, id0: 0, id1: 0, id2: 0, id3: n }
}
