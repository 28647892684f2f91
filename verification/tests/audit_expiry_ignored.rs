use soroban_guard::host::{Addr, AddrKind, Env};
use soroban_guard::vulnerable::audit_expiry_ignored::secure::SecureAuditRegistry;
use soroban_guard::vulnerable::audit_expiry_ignored::VulnerableAuditRegistry;

#[test]
fn test_vulnerable_expired_audit_still_active() {
    let mut env = Env::new(1, addr(1000));
    let mut client = VulnerableAuditRegistry::new();
    let contract_id: u64 = 1;
    client.submit_audit(&mut env, addr(1), contract_id, 10);
    env.sequence = 20;
    assert!(client.is_active(contract_id));
}

#[test]
fn test_vulnerable_non_expired_audit_is_active() {
    let mut env = Env::new(1, addr(1000));
    let mut client = VulnerableAuditRegistry::new();
    let contract_id: u64 = 2;
    client.submit_audit(&mut env, addr(1), contract_id, 100);
    env.sequence = 50;
    assert!(client.is_active(contract_id));
}

#[test]
fn test_secure_expired_audit_is_inactive() {
    let mut env = Env::new(1, addr(1000));
    let mut client = SecureAuditRegistry::new();
    let contract_id: u64 = 3;
    client.submit_audit(&mut env, addr(1), contract_id, 10);
    env.sequence = 11;
    assert!(!client.is_active(&env, contract_id));
}

#[test]
fn test_secure_audit_active_at_expiry_ledger() {
    let mut env = Env::new(1, addr(1000));
    let mut client = SecureAuditRegistry::new();
    let contract_id: u64 = 4;
    client.submit_audit(&mut env, addr(1), contract_id, 10);
    env.sequence = 10;
    assert!(client.is_active(&env, contract_id));
}

#[test]
fn audits_are_returned_with_their_auditor() {
    let mut env = Env::new(1, addr(1000));
    let mut client = SecureAuditRegistry::new();
    assert!(client.get_active_audit(&env, 5).is_none());
    client.submit_audit(&mut env, addr(7), 5, 3);
    let record = client.get_active_audit(&env, 5).unwrap();
    assert_eq!(record.auditor, addr(7));
    assert_eq!(record.expiry_ledger, 3);
    let vulnerable = VulnerableAuditRegistry::new();
    assert!(!vulnerable.is_active(5));
    assert_eq!(env.auths, vec![addr(7)]);
}

fn addr(n: u64) -> Addr {
    Addr { kind: AddrKind::Account, id0: 0, id1: 0, id2: 0, id3: n }
}
