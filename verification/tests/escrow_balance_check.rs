use soroban_guard::host::{Addr, AddrKind, Env, Error};
use soroban_guard::vulnerable::escrow_balance_check::secure::SecureEscrow;
use soroban_guard::vulnerable::escrow_balance_check::VulnerableEscrow;

fn setup() -> (Env, VulnerableEscrow, Addr, Addr) {
    let env = Env::new(0, addr(1000));
    let mut client = VulnerableEscrow::new();
    let (admin, beneficiary) = (addr(1), addr(2));
    client.initialize(admin).unwrap();
    (env, client, admin, beneficiary)
}

fn setup_secure() -> (Env, SecureEscrow, Addr, Addr) {
    let env = Env::new(0, addr(1000));
    let mut client = SecureEscrow::new();
    let (admin, beneficiary) = (addr(1), addr(2));
    client.initialize(admin).unwrap();
    (env, client, admin, beneficiary)
}

#[test]
fn test_release_exceeding_balance_does_not_revert() {
    let (mut env, mut client, _admin, beneficiary) = setup();
    client.deposit(&mut env, 1, beneficiary, 500).unwrap();
    client.release(&mut env, 1, 1000).unwrap();
    assert_eq!(client.escrow_balance(1), -500);
}

#[test]
fn lib_test_valid_release_exact_balance_succeeds() {
    let (mut env, mut client, _admin, beneficiary) = setup();
    client.deposit(&mut env, 2, beneficiary, 1000).unwrap();
    client.release(&mut env, 2, 1000).unwrap();
    assert_eq!(client.escrow_balance(2), 0);
}

#[test]
fn test_release_exceeding_balance_panics() {
    let (mut env, mut client, _admin, beneficiary) = setup_secure();
    client.deposit(&mut env, 1, beneficiary, 500).unwrap();
    assert_eq!(client.release(&mut env, 1, 1000), Err(Error::InsufficientEscrowBalance));
    assert_eq!(client.escrow_balance(1), 500);
}

#[test]
fn secure_test_valid_release_exact_balance_succeeds() {
    let (mut env, mut client, _admin, beneficiary) = setup_secure();
    client.deposit(&mut env, 2, beneficiary, 1000).unwrap();
    client.release(&mut env, 2, 1000).unwrap();
    assert_eq!(client.escrow_balance(2), 0);
}

#[test]
fn test_partial_release_reduces_balance() {
    let (mut env, mut client, _admin, beneficiary) = setup_secure();
    client.deposit(&mut env, 3, beneficiary, 1000).unwrap();
    client.release(&mut env, 3, 400).unwrap();
    assert_eq!(client.escrow_balance(3), 600);
}

#[test]
fn releases_need_an_escrow_and_an_admin() {
    let mut env = Env::new(0, addr(1000));
    let mut client = SecureEscrow::new();
    assert_eq!(client.release(&mut env, 1, 1), Err(Error::NotInitialized));
    client.initialize(addr(1)).unwrap();
    assert_eq!(client.initialize(addr(1)), Err(Error::AlreadyInitialized));
    assert_eq!(client.release(&mut env, 1, 1), Err(Error::EscrowNotFound));
    assert_eq!(client.escrow_balance(9), 0);
    client.deposit(&mut env, 4, addr(2), 10).unwrap();
    client.release(&mut env, 4, 10).unwrap();
    assert_eq!(env.auths, vec![addr(1), addr(1), addr(1)]);
}

fn addr(n: u64) -> Addr {
    Addr { kind: AddrKind::Account, id0: 0, id1: 0, id2: 0, id3: n }
}
