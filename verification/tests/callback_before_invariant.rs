use soroban_guard::host::{Addr, AddrKind, Env, Error};
use soroban_guard::vulnerable::callback_before_invariant::secure::SecurePool;
use soroban_guard::vulnerable::callback_before_invariant::{PoolState, VulnerablePool};

fn setup(reserve: i128) -> (Env, VulnerablePool) {
    let env = Env::new(0, addr(1000));
    let mut client = VulnerablePool::new();
    client.initialize(reserve).unwrap();
    (env, client)
}

fn setup_secure(reserve: i128) -> (Env, SecurePool) {
    let env = Env::new(0, addr(1000));
    let mut client = SecurePool::new();
    client.initialize(reserve).unwrap();
    (env, client)
}

#[test]
fn test_vulnerable_callback_inflation_bypasses_invariant() {
    let reserve = 1000_i128;
    let (mut env, mut client) = setup(reserve);
    client.set_callback_inflates(true);
    client.flash_loan(&mut env, addr(1), reserve).unwrap();
    assert_eq!(client.balance(), reserve);
}

#[test]
fn test_unrepaid_loan_fails_without_inflation() {
    let reserve = 1000_i128;
    let (mut env, mut client) = setup(reserve);
    client.set_callback_inflates(false);
    assert_eq!(client.flash_loan(&mut env, addr(1), reserve), Err(Error::InvariantViolated));
    assert_eq!(client.balance(), reserve);
}

#[test]
fn test_secure_rejects_callback_inflation() {
    let reserve = 1000_i128;
    let (mut env, mut client) = setup_secure(reserve);
    client.set_callback_inflates(true);
    assert_eq!(client.flash_loan(&mut env, addr(1), reserve), Err(Error::InvariantViolated));
    assert_eq!(client.balance(), reserve);
}

#[test]
fn test_secure_genuine_repayment_passes() {
    let reserve = 1000_i128;
    let (mut env, mut client) = setup_secure(reserve);
    client.deposit(500);
    assert_eq!(client.balance(), 1500);
    client.set_callback_inflates(false);
    client.flash_loan(&mut env, addr(1), 500).unwrap();
    assert_eq!(client.balance(), 1000);
}

#[test]
fn pool_state_callback_tops_up_only_below_the_reserve() {
    let mut state = PoolState::new();
    state.initialize(100).unwrap();
    assert_eq!(state.initialize(5), Err(Error::AlreadyInitialized));
    state.set_callback_inflates(true);
    state.balance = 40;
    state.run_callback();
    assert_eq!(state.balance, 100);
    state.deposit(5);
    state.run_callback();
    assert_eq!(state.balance, 105);
    let (mut env, mut client) = setup(10);
    assert_eq!(client.flash_loan(&mut env, addr(1), 11), Err(Error::InsufficientPoolBalance));
    assert_eq!(client.reserve(), 10);
}

fn addr(n: u64) -> Addr {
    Addr { kind: AddrKind::Account, id0: 0, id1: 0, id2: 0, id3: n }
}
