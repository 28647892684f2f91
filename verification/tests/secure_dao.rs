use soroban_guard::host::{Addr, AddrKind, Env, Error, Event};
use soroban_guard::secure::secure_dao::{SecureDao, TIMELOCK_DELAY};

fn make_env() -> (Env, SecureDao) {
    (Env::new(0, addr(1000)), SecureDao::new())
}

#[test]
fn test_full_lifecycle() {
    let (mut env, mut client) = make_env();
    let voter = addr(1);
    client.mint(voter, 600).unwrap();
    client.mint(addr(2), 400).unwrap();
    let pid = client.create_proposal(&mut env, voter).unwrap();
    client.vote(&mut env, voter, pid, true).unwrap();
    client.queue(&mut env, pid).unwrap();
    let p = client.get_proposal(pid).unwrap();
    assert!(p.queued);
    assert!(!p.executed);
    assert_eq!(p.execute_after, TIMELOCK_DELAY);
    env.sequence = p.execute_after;
    client.execute(&mut env, pid).unwrap();
    assert!(client.get_proposal(pid).unwrap().executed);
}

#[test]
fn test_execute_before_timelock_panics() {
    let (mut env, mut client) = make_env();
    let voter = addr(1);
    client.mint(voter, 600).unwrap();
    client.mint(addr(2), 400).unwrap();
    let pid = client.create_proposal(&mut env, voter).unwrap();
    client.vote(&mut env, voter, pid, true).unwrap();
    client.queue(&mut env, pid).unwrap();
    assert_eq!(client.execute(&mut env, pid), Err(Error::TimelockNotExpired));
}

#[test]
fn test_below_quorum_cannot_queue() {
    let (mut env, mut client) = make_env();
    let voter = addr(1);
    client.mint(voter, 1).unwrap();
    client.mint(addr(2), 9999).unwrap();
    let pid = client.create_proposal(&mut env, voter).unwrap();
    client.vote(&mut env, voter, pid, true).unwrap();
    assert_eq!(client.queue(&mut env, pid), Err(Error::QuorumNotReached));
}

#[test]
fn test_failed_majority_cannot_queue() {
    let (mut env, mut client) = make_env();
    let alice = addr(1);
    let bob = addr(2);
    client.mint(alice, 400).unwrap();
    client.mint(bob, 600).unwrap();
    let pid = client.create_proposal(&mut env, alice).unwrap();
    client.vote(&mut env, alice, pid, true).unwrap();
    client.vote(&mut env, bob, pid, false).unwrap();
    assert_eq!(client.queue(&mut env, pid), Err(Error::ProposalNotPassed));
}

#[test]
fn test_double_vote_panics() {
    let (mut env, mut client) = make_env();
    let voter = addr(1);
    client.mint(voter, 500).unwrap();
    client.mint(addr(2), 500).unwrap();
    let pid = client.create_proposal(&mut env, voter).unwrap();
    client.vote(&mut env, voter, pid, true).unwrap();
    assert_eq!(client.vote(&mut env, voter, pid, true), Err(Error::AlreadyVoted));
    assert_eq!(client.get_proposal(pid).unwrap().votes_for, 500);
}

#[test]
fn proposals_need_tokens_and_execute_once() {
    let (mut env, mut client) = make_env();
    assert_eq!(client.create_proposal(&mut env, addr(1)), Err(Error::NoTokens));
    client.mint(addr(1), 100).unwrap();
    assert_eq!(client.total_supply(), 100);
    assert_eq!(client.balance(addr(1)), 100);
    let pid = client.create_proposal(&mut env, addr(1)).unwrap();
    assert_eq!(client.get_proposal(pid + 1), Err(Error::ProposalNotFound));
    assert_eq!(client.vote(&mut env, addr(7), pid, true), Err(Error::NoVotingPower));
    client.vote(&mut env, addr(1), pid, true).unwrap();
    client.queue(&mut env, pid).unwrap();
    assert_eq!(client.queue(&mut env, pid), Err(Error::AlreadyQueued));
    env.sequence = TIMELOCK_DELAY;
    client.execute(&mut env, pid).unwrap();
    assert_eq!(client.execute(&mut env, pid), Err(Error::AlreadyExecuted));
}

#[test]
fn governance_steps_publish_events() {
    let (mut env, mut client) = make_env();
    let voter = addr(1);
    client.mint(voter, 600).unwrap();
    let pid = client.create_proposal(&mut env, voter).unwrap();
    client.vote(&mut env, voter, pid, true).unwrap();
    client.queue(&mut env, pid).unwrap();
    env.sequence = TIMELOCK_DELAY;
    client.execute(&mut env, pid).unwrap();
    assert_eq!(
        env.events,
        vec![
            Event::Proposed { id: pid, proposer: voter },
            Event::Voted { proposal_id: pid, voter, support: true, weight: 600 },
            Event::Queued { proposal_id: pid, execute_after: TIMELOCK_DELAY },
            Event::Executed { proposal_id: pid },
        ]
    );
}

fn addr(n: u64) -> Addr {
    Addr { kind: AddrKind::Account, id0: 0, id1: 0, id2: 0, id3: n }
}
