use soroban_guard::host::{Addr, AddrKind, Env, Error};
use soroban_guard::secure::sequence_lock::SequenceLockedVault;

#[test]
fn test_deposit_and_balance() {
    let mut env = Env::new(0, addr(1000));
    let mut client = SequenceLockedVault::new();
    let alice = addr(1);
    let unlock_sequence = 1000;
    client.deposit(&mut env, alice, 1000, unlock_sequence);
    assert_eq!(client.balance(alice), 1000);
    assert_eq!(client.unlock_sequence(alice), Some(unlock_sequence));
}

#[test]
fn test_withdrawal_after_lock_succeeds() {
    let mut env = Env::new(0, addr(1000));
    let mut client = SequenceLockedVault::new();
    let alice = addr(1);
    let unlock_sequence = 1000;
    client.deposit(&mut env, alice, 1000, unlock_sequence);
    env.sequence = unlock_sequence + 1;
    client.withdraw(&mut env, alice).unwrap();
    assert_eq!(client.balance(alice), 0);
    assert_eq!(client.unlock_sequence(alice), None);
}

#[test]
fn test_withdrawal_before_lock_fails() {
    let mut env = Env::new(0, addr(1000));
    let mut client = SequenceLockedVault::new();
    let alice = addr(1);
    let unlock_sequence = 1000;
    client.deposit(&mut env, alice, 1000, unlock_sequence);
    env.sequence = unlock_sequence - 1;
    assert_eq!(client.withdraw(&mut env, alice), Err(Error::StillLocked));
}

#[test]
fn test_sequence_lock_is_immutable() {
    let mut env = Env::new(0, addr(1000));
    let mut client = SequenceLockedVault::new();
    let alice = addr(1);
    let unlock_sequence = 1000;
    client.deposit(&mut env, alice, 1000, unlock_sequence);
    env.sequence = unlock_sequence - 1;
    assert!(client.withdraw(&mut env, alice).is_err());
    assert_eq!(client.balance(alice), 1000);
    assert_eq!(client.unlock_sequence(alice), Some(unlock_sequence));
}

#[test]
fn withdrawal_on_the_unlock_ledger_and_without_a_lock() {
    let mut env = Env::new(1000, addr(1000));
    let mut client = SequenceLockedVault::new();
    assert_eq!(client.withdraw(&mut env, addr(1)), Err(Error::UnlockNotSet));
    client.deposit(&mut env, addr(1), 5, 1000);
    assert_eq!(SequenceLockedVault::current_sequence(&env), 1000);
    assert_eq!(client.withdraw(&mut env, addr(1)), Ok(()));
}

fn addr(n: u64) -> Addr {
    Addr { kind: AddrKind::Account, id0: 0, id1: 0, id2: 0, id3: n }
}
