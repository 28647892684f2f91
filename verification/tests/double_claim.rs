use soroban_guard::host::{Addr, AddrKind, Env};
use soroban_guard::vulnerable::double_claim::DoubleClaim;

fn setup() -> (Env, DoubleClaim, Addr) {
    let mut env = Env::new(0, addr(1000));
    let mut client = DoubleClaim::new();
    client.initialize(10);
    let staker = addr(1);
    client.stake(&mut env, staker, 100);
    (env, client, staker)
}

#[test]
fn test_first_claim_correct() {
    let (mut env, client, staker) = setup();
    env.sequence += 5;
    assert_eq!(client.claim_rewards(&mut env, staker), 5000);
}

#[test]
fn test_second_claim_same_reward_double_spend() {
    let (mut env, client, staker) = setup();
    env.sequence += 5;
    let first = client.claim_rewards(&mut env, staker);
    let second = client.claim_rewards(&mut env, staker);
    assert_eq!(first, second);
}

#[test]
fn test_secure_version_resets_timestamp() {
    let (mut env, mut client, staker) = setup();
    env.sequence += 5;
    let first = client.claim_rewards(&mut env, staker);
    assert_eq!(first, 5000);
    client.set_staked_at(staker, env.sequence);
    let second = client.claim_rewards(&mut env, staker);
    assert_eq!(second, 0);
}

#[test]
fn overflowing_reward_is_zero_and_unknown_staker_earns_nothing() {
    let mut env = Env::new(0, addr(1000));
    let mut client = DoubleClaim::new();
    client.initialize(u64::MAX);
    client.stake(&mut env, addr(1), 2);
    env.sequence = 3;
    assert_eq!(client.claim_rewards(&mut env, addr(1)), 0);
    assert_eq!(client.claim_rewards(&mut env, addr(2)), 0);
}

fn addr(n: u64) -> Addr {
    Addr { kind: AddrKind::Account, id0: 0, id1: 0, id2: 0, id3: n }
}
