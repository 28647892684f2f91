use soroban_guard::host::{Addr, AddrKind, Env, Error};
use soroban_guard::vulnerable::cross_call_error_swallowed::secure::SecureLending;
use soroban_guard::vulnerable::cross_call_error_swallowed::{CreditLedger, VulnerableLending};

fn setup() -> (Env, VulnerableLending) {
    let env = Env::new(0, addr(1000));
    let mut client = VulnerableLending::new();
    client.initialize();
    (env, client)
}

fn setup_secure() -> (Env, SecureLending) {
    let env = Env::new(0, addr(1000));
    let mut client = SecureLending::new();
    client.initialize();
    (env, client)
}

#[test]
fn test_vulnerable_balance_credited_despite_transfer_failure() {
    let (mut env, mut client) = setup();
    let user = addr(1);
    client.set_transfer_fails(true);
    client.deposit(&mut env, user, 1000);
    assert_eq!(client.credit_balance(user), 1000);
}

#[test]
fn test_successful_transfer_credits_balance() {
    let (mut env, mut client) = setup();
    let user = addr(1);
    client.set_transfer_fails(false);
    client.deposit(&mut env, user, 500);
    assert_eq!(client.credit_balance(user), 500);
}

#[test]
fn test_secure_state_unchanged_on_transfer_failure() {
    let (mut env, mut client) = setup_secure();
    let user = addr(1);
    client.set_transfer_fails(true);
    assert_eq!(client.deposit(&mut env, user, 1000), Err(Error::TransferFailed));
    assert_eq!(client.credit_balance(user), 0);
}

#[test]
fn test_secure_credits_balance_on_success() {
    let (mut env, mut client) = setup_secure();
    let user = addr(1);
    client.set_transfer_fails(false);
    client.deposit(&mut env, user, 750).unwrap();
    assert_eq!(client.credit_balance(user), 750);
}

#[test]
fn ledger_reports_transfer_outcome_and_accumulates() {
    let mut ledger = CreditLedger::new();
    assert_eq!(ledger.do_token_transfer(), Ok(()));
    ledger.transfer_fails = true;
    assert_eq!(ledger.do_token_transfer(), Err(()));
    ledger.credit_user(addr(1), 5);
    ledger.credit_user(addr(1), 6);
    assert_eq!(ledger.credits.amount(&addr(1)), 11);
}

fn addr(n: u64) -> Addr {
    Addr { kind: AddrKind::Account, id0: 0, id1: 0, id2: 0, id3: n }
}
