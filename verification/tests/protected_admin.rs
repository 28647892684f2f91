use soroban_guard::host::{Addr, AddrKind, Env, Error};
use soroban_guard::secure::protected_admin::{ProtectedAdmin, PROPOSAL_TTL_LEDGERS};

fn setup() -> (Env, ProtectedAdmin, Addr) {
    let env = Env::new(0, addr(1000));
    let mut client = ProtectedAdmin::new();
    let admin = addr(1);
    client.initialize(admin).unwrap();
    (env, client, admin)
}

#[test]
fn test_propose_and_accept_rotates_admin() {
    let (mut env, mut client, _admin) = setup();
    let new_admin = addr(2);
    client.propose_admin(&mut env, new_admin).unwrap();
    client.accept_admin(&mut env).unwrap();
    assert_eq!(client.get_admin(), Ok(new_admin));
}

#[test]
fn test_wrong_address_cannot_accept() {
    let (mut env, mut client, admin) = setup();
    let new_admin = addr(2);
    let impostor = addr(3);
    client.propose_admin(&mut env, new_admin).unwrap();
    let mut env2 = Env::new(0, addr(1000));
    client.accept_admin(&mut env2).unwrap();
    assert_eq!(env2.auths, vec![new_admin]);
    assert!(!env2.auths.contains(&impostor));
    assert_eq!(env.auths, vec![admin]);
}

#[test]
fn test_expired_proposal_cannot_be_accepted() {
    let (mut env, mut client, admin) = setup();
    client.propose_admin(&mut env, addr(2)).unwrap();
    env.sequence = env.sequence + PROPOSAL_TTL_LEDGERS + 1;
    assert_eq!(client.accept_admin(&mut env), Err(Error::ProposalExpired));
    assert_eq!(client.get_admin(), Ok(admin));
}

#[test]
fn proposal_accepted_on_its_expiry_ledger() {
    let (mut env, mut client, _admin) = setup();
    client.propose_admin(&mut env, addr(2)).unwrap();
    env.sequence = PROPOSAL_TTL_LEDGERS;
    assert_eq!(client.accept_admin(&mut env), Ok(()));
    assert_eq!(client.accept_admin(&mut env), Err(Error::NoPendingProposal));
}

#[test]
fn test_admin_can_rotate_admin() {
    let (mut env, mut client, admin) = setup();
    let new_admin = addr(2);
    client.set_admin(&mut env, new_admin).unwrap();
    assert_eq!(client.get_admin(), Ok(new_admin));
    assert_eq!(env.auths, vec![admin]);
}

#[test]
fn test_non_admin_cannot_set_admin() {
    let (mut env, mut client, admin) = setup();
    let attacker = addr(9);
    client.set_admin(&mut env, attacker).unwrap();
    assert_eq!(env.auths, vec![admin]);
}

#[test]
fn test_account_can_manage_own_profile() {
    let (mut env, mut client, _admin) = setup();
    let alice = addr(5);
    client.set_profile(&mut env, alice, "Alice".to_string(), 3);
    let profile = client.get_profile(alice).unwrap();
    assert_eq!(profile.kyc_level, 3);
    assert_eq!(profile.display_name, "Alice");
    client.delete_profile(&mut env, alice);
    assert!(client.get_profile(alice).is_none());
}

#[test]
fn test_attacker_cannot_overwrite_profile() {
    let (mut env, mut client, _admin) = setup();
    let alice = addr(5);
    client.set_profile(&mut env, alice, "Alice".to_string(), 2);
    let mut env2 = Env::new(0, addr(1000));
    client.set_profile(&mut env2, alice, "Hacked".to_string(), 0);
    assert_eq!(env2.auths, vec![alice]);
}

#[test]
fn initialization_and_upgrade_rules() {
    let mut fresh = ProtectedAdmin::new();
    let mut env = Env::new(0, addr(1000));
    assert_eq!(fresh.get_admin(), Err(Error::NotInitialized));
    assert_eq!(fresh.propose_admin(&mut env, addr(2)), Err(Error::NotInitialized));
    assert_eq!(fresh.upgrade(&mut env, [7u8; 32]), Err(Error::NotInitialized));
    fresh.initialize(addr(1)).unwrap();
    assert_eq!(fresh.initialize(addr(2)), Err(Error::AlreadyInitialized));
    assert_eq!(fresh.upgrade(&mut env, [7u8; 32]), Ok([7u8; 32]));
    assert_eq!(env.auths, vec![addr(1)]);
}

fn addr(n: u64) -> Addr {
    Addr { kind: AddrKind::Account, id0: 0, id1: 0, id2: 0, id3: n }
}
