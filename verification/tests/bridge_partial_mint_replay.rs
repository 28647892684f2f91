use soroban_guard::host::{Addr, AddrKind, Error};
use soroban_guard::vulnerable::bridge_partial_mint_replay::secure::SecureBridge;
use soroban_guard::vulnerable::bridge_partial_mint_replay::{bytes_eq, copy_bytes, VulnerableBridge};

fn proof_of(id: u8) -> Vec<u8> {
    vec![id; 32]
}

fn setup() -> VulnerableBridge {
    let mut client = VulnerableBridge::new();
    client.initialize();
    client
}

#[test]
fn test_vulnerable_proof_reusable_after_mint_failure() {
    let mut client = setup();
    let recipient = addr(1);
    let p = proof_of(1);
    client.set_mint_fails(true);
    assert_eq!(client.redeem(&p, recipient, 1000), Err(Error::MintFailed));
    assert!(!client.is_proof_used(&p));
    client.set_mint_fails(false);
    client.redeem(&p, recipient, 1000).unwrap();
    assert_eq!(client.minted_balance(recipient), 1000);
}

#[test]
fn test_consumed_proof_rejected_on_replay() {
    let mut client = setup();
    let recipient = addr(1);
    let p = proof_of(2);
    client.redeem(&p, recipient, 500).unwrap();
    assert!(client.is_proof_used(&p));
    assert_eq!(client.redeem(&p, recipient, 500), Err(Error::ProofConsumed));
    assert_eq!(client.minted_balance(recipient), 500);
}

#[test]
fn test_secure_proof_consumed_before_mint() {
    let mut client = SecureBridge::new();
    client.initialize();
    let recipient = addr(1);
    let p = proof_of(3);
    client.set_mint_fails(true);
    assert_eq!(client.redeem(&p, recipient, 1000), Err(Error::MintFailed));
    client.set_mint_fails(false);
    client.redeem(&p, recipient, 1000).unwrap();
    assert_eq!(client.minted_balance(recipient), 1000);
    assert!(client.is_proof_used(&p));
    assert_eq!(client.redeem(&p, recipient, 1000), Err(Error::ProofConsumed));
}

#[test]
fn test_secure_successful_redeem() {
    let mut client = SecureBridge::new();
    client.initialize();
    let recipient = addr(1);
    let p = proof_of(4);
    client.redeem(&p, recipient, 2000).unwrap();
    assert_eq!(client.minted_balance(recipient), 2000);
    assert!(client.is_proof_used(&p));
}

#[test]
fn proofs_are_compared_by_content() {
    let a = proof_of(5);
    let b = copy_bytes(&a);
    assert!(bytes_eq(&a, &b));
    assert!(!bytes_eq(&a, &proof_of(6)));
    assert!(!bytes_eq(&a, &vec![5u8; 31]));
    let mut client = setup();
    client.redeem(&a, addr(1), 1).unwrap();
    assert!(client.is_proof_used(&b));
    assert!(!client.is_proof_used(&proof_of(6)));
}

fn addr(n: u64) -> Addr {
    Addr { kind: AddrKind::Account, id0: 0, id1: 0, id2: 0, id3: n }
}
