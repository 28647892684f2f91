use soroban_guard::host::{Addr, AddrKind, Env};
use soroban_guard::secure::secure_escrow::SecureEscrow;

#[test]
fn test_depositor_can_withdraw_with_auth() {
    let mut env = Env::new(0, addr(1000));
    let mut client = SecureEscrow::new();
    let depositor = addr(1);
    client.deposit(&mut env, depositor, 1000);
    client.withdraw(&mut env, depositor, 500);
    assert_eq!(client.balance(depositor), 500);
}

#[test]
fn test_withdraw_without_depositor_auth_panics() {
    let mut env = Env::new(0, addr(1000));
    let mut client = SecureEscrow::new();
    let depositor = addr(1);
    client.deposit(&mut env, depositor, 1000);
    let mut env2 = Env::new(0, addr(1000));
    client.withdraw(&mut env2, depositor, 500);
    assert_eq!(env2.auths, vec![depositor]);
}

#[test]
fn escrows_are_kept_per_depositor() {
    let mut env = Env::new(0, addr(1000));
    let mut client = SecureEscrow::new();
    client.deposit(&mut env, addr(1), 10);
    client.deposit(&mut env, addr(2), 20);
    client.deposit(&mut env, addr(1), 5);
    assert_eq!(client.balance(addr(1)), 15);
    assert_eq!(client.balance(addr(2)), 20);
    assert_eq!(client.balance(addr(3)), 0);
}

fn addr(n: u64) -> Addr {
    Addr { kind: AddrKind::Account, id0: 0, id1: 0, id2: 0, id3: n }
}
