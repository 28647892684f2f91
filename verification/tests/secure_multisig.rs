use soroban_guard::host::{Addr, AddrKind, Env, Error, Event};
use soroban_guard::secure::secure_multisig::SecureMultisig;

const TTL: u32 = 100;
const THRESHOLD: u32 = 2;

fn setup() -> (Env, SecureMultisig, Addr, Addr, Addr) {
    let env = Env::new(0, addr(1000));
    let mut client = SecureMultisig::new();
    let (s1, s2, s3) = (addr(1), addr(2), addr(3));
    client.initialize(vec![s1, s2, s3], THRESHOLD, TTL).unwrap();
    (env, client, s1, s2, s3)
}

fn action() -> [u8; 32] {
    [1u8; 32]
}

#[test]
fn test_m_approvals_executes() {
    let (mut env, mut client, s1, s2, _s3) = setup();
    let hash = action();
    client.propose_action(&mut env, s1, hash).unwrap();
    client.approve(&mut env, s1, hash).unwrap();
    client.approve(&mut env, s2, hash).unwrap();
    client.execute(&mut env, hash).unwrap();
    let proposal = client.get_proposal(hash).unwrap();
    assert!(proposal.executed);
}

#[test]
fn test_m_minus_1_approvals_cannot_execute() {
    let (mut env, mut client, s1, _s2, _s3) = setup();
    let hash = action();
    client.propose_action(&mut env, s1, hash).unwrap();
    client.approve(&mut env, s1, hash).unwrap();
    assert_eq!(client.execute(&mut env, hash), Err(Error::InsufficientApprovals));
}

#[test]
fn test_non_signer_cannot_approve() {
    let (mut env, mut client, s1, _s2, _s3) = setup();
    let hash = action();
    client.propose_action(&mut env, s1, hash).unwrap();
    assert_eq!(client.approve(&mut env, addr(9), hash), Err(Error::NotSigner));
}

#[test]
fn test_expired_proposal_cannot_execute() {
    let (mut env, mut client, s1, s2, _s3) = setup();
    let hash = action();
    client.propose_action(&mut env, s1, hash).unwrap();
    client.approve(&mut env, s1, hash).unwrap();
    client.approve(&mut env, s2, hash).unwrap();
    env.sequence = env.sequence + TTL + 1;
    assert_eq!(client.execute(&mut env, hash), Err(Error::ProposalExpired));
}

#[test]
fn test_expired_proposal_cannot_be_approved() {
    let (mut env, mut client, s1, s2, _s3) = setup();
    let hash = action();
    client.propose_action(&mut env, s1, hash).unwrap();
    env.sequence = env.sequence + TTL + 1;
    assert_eq!(client.approve(&mut env, s2, hash), Err(Error::ProposalExpired));
}

#[test]
fn test_double_approve_rejected() {
    let (mut env, mut client, s1, _s2, _s3) = setup();
    let hash = action();
    client.propose_action(&mut env, s1, hash).unwrap();
    client.approve(&mut env, s1, hash).unwrap();
    assert_eq!(client.approve(&mut env, s1, hash), Err(Error::AlreadyApproved));
}

#[test]
fn test_double_execute_rejected() {
    let (mut env, mut client, s1, s2, _s3) = setup();
    let hash = action();
    client.propose_action(&mut env, s1, hash).unwrap();
    client.approve(&mut env, s1, hash).unwrap();
    client.approve(&mut env, s2, hash).unwrap();
    client.execute(&mut env, hash).unwrap();
    assert_eq!(client.execute(&mut env, hash), Err(Error::AlreadyExecuted));
}

#[test]
fn setup_rules() {
    let mut client = SecureMultisig::new();
    let mut env = Env::new(0, addr(1000));
    assert_eq!(client.get_signers(), Err(Error::NotInitialized));
    assert_eq!(client.initialize(vec![addr(1)], 2, TTL), Err(Error::InvalidThreshold));
    assert_eq!(client.initialize(vec![addr(1)], 0, TTL), Err(Error::InvalidThreshold));
    client.initialize(vec![addr(1)], 1, TTL).unwrap();
    assert_eq!(client.get_signers(), Ok(vec![addr(1)]));
    client.propose_action(&mut env, addr(1), [2u8; 32]).unwrap();
    assert_eq!(client.propose_action(&mut env, addr(1), [2u8; 32]), Err(Error::ProposalExists));
    assert!(client.get_proposal([3u8; 32]).is_none());
    env.sequence = TTL;
    client.approve(&mut env, addr(1), [2u8; 32]).unwrap();
    client.execute(&mut env, [2u8; 32]).unwrap();
}

#[test]
fn multisig_steps_publish_events() {
    let (mut env, mut client, s1, s2, _s3) = setup();
    let hash = action();
    client.propose_action(&mut env, s1, hash).unwrap();
    client.approve(&mut env, s1, hash).unwrap();
    client.approve(&mut env, s2, hash).unwrap();
    client.execute(&mut env, hash).unwrap();
    assert_eq!(
        env.events,
        vec![
            Event::ActionProposed { action_hash: hash },
            Event::ActionApproved { action_hash: hash, signer: s1 },
            Event::ActionApproved { action_hash: hash, signer: s2 },
            Event::ActionExecuted { action_hash: hash },
        ]
    );
}

fn addr(n: u64) -> Addr {
    Addr { kind: AddrKind::Account, id0: 0, id1: 0, id2: 0, id3: n }
}
