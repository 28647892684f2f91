use soroban_guard::host::{Addr, AddrKind, Env, Error};
use soroban_guard::vulnerable::abs_min_overflow::secure::SecureRisk;
use soroban_guard::vulnerable::abs_min_overflow::RiskModule;

fn setup() -> (Env, Addr, RiskModule) {
    (Env::new(0, addr(1000)), addr(1), RiskModule::new())
}

#[test]
fn test_normal_negative_delta_abs_correct() {
    let (mut env, user, mut client) = setup();
    client.record_delta(&mut env, user, -42_i128);
    assert_eq!(client.get_delta(user), 42_i128);
}

#[test]
fn test_boundary_i128_min_plus_one_is_safe() {
    let (mut env, user, mut client) = setup();
    client.record_delta(&mut env, user, i128::MIN + 1);
    assert_eq!(client.get_delta(user), i128::MAX);
}

#[test]
fn test_secure_rejects_i128_min() {
    let mut env = Env::new(0, addr(1000));
    let mut client = SecureRisk::new();
    let user = addr(1);
    assert_eq!(client.record_delta(&mut env, user, i128::MIN), Err(Error::DeltaOutOfRange));
    assert_eq!(client.get_delta(user), 0);
}

#[test]
fn test_secure_normal_delta_stored_correctly() {
    let mut env = Env::new(0, addr(1000));
    let mut client = SecureRisk::new();
    let user = addr(1);
    client.record_delta(&mut env, user, -100_i128).unwrap();
    assert_eq!(client.get_delta(user), 100_i128);
}

#[test]
fn positive_deltas_are_kept_and_overwritten() {
    let (mut env, user, mut client) = setup();
    client.record_delta(&mut env, user, 7);
    client.record_delta(&mut env, user, -9);
    assert_eq!(client.get_delta(user), 9);
    assert_eq!(client.get_delta(addr(2)), 0);
    assert_eq!(env.auths, vec![user, user]);
}

fn addr(n: u64) -> Addr {
    Addr { kind: AddrKind::Account, id0: 0, id1: 0, id2: 0, id3: n }
}
