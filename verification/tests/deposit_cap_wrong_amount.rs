use soroban_guard::host::{Addr, AddrKind, Env, Error};
use soroban_guard::vulnerable::deposit_cap_wrong_amount::secure::SecureDepositCap;
use soroban_guard::vulnerable::deposit_cap_wrong_amount::{DepositCapWrongAmount, FeeToken, Token, DEPOSIT_CAP};

fn setup_vulnerable() -> (Env, FeeToken, DepositCapWrongAmount) {
    let env = Env::new(0, addr(1000));
    let token = FeeToken::new();
    let mut vault = DepositCapWrongAmount::new();
    vault.initialize(addr(50));
    (env, token, vault)
}

fn setup_secure() -> (Env, FeeToken, SecureDepositCap) {
    let env = Env::new(0, addr(1000));
    let token = FeeToken::new();
    let mut vault = SecureDepositCap::new();
    vault.initialize(addr(50));
    (env, token, vault)
}

#[test]
fn test_vulnerable_exceeds_cap_via_fee_on_transfer() {
    let (mut env, mut token, mut client) = setup_vulnerable();
    let user = addr(1);
    token.mint(user, 200);
    client.deposit(&mut env, &mut token, user, DEPOSIT_CAP).unwrap();
    assert_eq!(client.total_credited(), 90);
    client.deposit(&mut env, &mut token, user, DEPOSIT_CAP).unwrap();
    assert_eq!(client.total_credited(), 180);
    assert!(client.total_credited() > DEPOSIT_CAP);
}

#[test]
fn test_vulnerable_boundary_deposit_at_cap_exceeds_credited_total() {
    let (mut env, mut token, mut client) = setup_vulnerable();
    let user = addr(1);
    token.mint(user, 200);
    client.deposit(&mut env, &mut token, user, DEPOSIT_CAP).unwrap();
    assert_eq!(client.total_credited(), 90);
    client.deposit(&mut env, &mut token, user, DEPOSIT_CAP).unwrap();
    assert!(client.total_credited() > DEPOSIT_CAP);
}

#[test]
fn test_secure_rejects_deposit_over_cap() {
    let (mut env, mut token, mut client) = setup_secure();
    let user = addr(1);
    token.mint(user, 200);
    client.deposit(&mut env, &mut token, user, DEPOSIT_CAP).unwrap();
    assert_eq!(
        client.deposit(&mut env, &mut token, user, DEPOSIT_CAP),
        Err(Error::DepositCapExceeded)
    );
    assert_eq!(client.total_credited(), 90);
    assert_eq!(token.balance(user), 100);
}

#[test]
fn fee_token_keeps_a_tenth() {
    let mut token = FeeToken::new();
    token.mint(addr(1), 100);
    assert_eq!(token.transfer(addr(1), addr(2), 101), Err(Error::InsufficientBalance));
    token.transfer(addr(1), addr(2), 50).unwrap();
    assert_eq!(token.balance(addr(1)), 50);
    assert_eq!(token.balance(addr(2)), 45);
    let (mut env, mut token, mut client) = setup_vulnerable();
    assert_eq!(client.deposit(&mut env, &mut token, addr(1), 0), Err(Error::AmountNotPositive));
    assert_eq!(
        client.deposit(&mut env, &mut token, addr(1), DEPOSIT_CAP + 1),
        Err(Error::DepositCapExceeded)
    );
    assert_eq!(client.deposit(&mut env, &mut token, addr(1), 1), Err(Error::InsufficientBalance));
}

#[test]
fn cap_decision_holds_for_any_delivered_amount() {
    let mut secure = SecureDepositCap::new();
    secure.credit_received(90).unwrap();
    assert_eq!(secure.credit_received(11), Err(Error::DepositCapExceeded));
    assert_eq!(secure.total_credited(), 90);
    secure.credit_received(10).unwrap();
    assert_eq!(secure.total_credited(), DEPOSIT_CAP);
    let mut vulnerable = DepositCapWrongAmount::new();
    vulnerable.credit_received(90);
    vulnerable.credit_received(500);
    assert_eq!(vulnerable.total_credited(), 590);
}

#[test]
fn refused_deposit_puts_the_token_back() {
    let (mut env, mut token, mut client) = setup_secure();
    let user = addr(1);
    token.mint(user, 300);
    client.deposit(&mut env, &mut token, user, 50).unwrap();
    assert_eq!(client.total_credited(), 45);
    assert_eq!(client.deposit(&mut env, &mut token, user, 70), Err(Error::DepositCapExceeded));
    assert_eq!(token.balance(user), 250);
    assert_eq!(token.balance(addr(1000)), 45);
    client.deposit(&mut env, &mut token, user, 61).unwrap();
    assert_eq!(client.total_credited(), 99);
    assert_eq!(token.balance(addr(1000)), 99);
    assert_eq!(client.deposit(&mut env, &mut token, addr(2), 10), Err(Error::InsufficientBalance));
    assert_eq!(client.total_credited(), 99);
}

fn addr(n: u64) -> Addr {
    Addr { kind: AddrKind::Account, id0: 0, id1: 0, id2: 0, id3: n }
}
