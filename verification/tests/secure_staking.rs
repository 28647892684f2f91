use soroban_guard::host::{Addr, AddrKind, Env, Error, StorageKey, TtlExtension};
use soroban_guard::secure::secure_staking::{SecureStaking, MAX_RATE, TTL_EXTEND_TO, TTL_THRESHOLD};

fn setup(rate: u64) -> (Env, Addr, SecureStaking) {
    let mut env = Env::new(0, addr(1000));
    let mut client = SecureStaking::new();
    let admin = addr(1);
    client.initialize(&mut env, admin, rate).unwrap();
    (env, admin, client)
}

#[test]
fn test_stake_and_claim_normal() {
    let (mut env, _, mut client) = setup(10);
    let staker = addr(2);
    env.sequence = 100;
    client.stake(&mut env, staker, 1000).unwrap();
    env.sequence = 110;
    let reward = client.claim_rewards(&mut env, staker).unwrap();
    assert_eq!(reward, 1000 * 10 * 10);
}

#[test]
fn test_stake_zero_rejected() {
    let (mut env, _, mut client) = setup(10);
    assert_eq!(client.stake(&mut env, addr(2), 0), Err(Error::AmountNotPositive));
}

#[test]
fn test_overflow_panics_cleanly() {
    let (mut env, _, mut client) = setup(MAX_RATE);
    let staker = addr(2);
    env.sequence = 0;
    client.stake(&mut env, staker, u64::MAX).unwrap();
    env.sequence = 1;
    assert_eq!(client.claim_rewards(&mut env, staker), Err(Error::Overflow));
}

#[test]
fn test_non_admin_cannot_update_rate() {
    let (mut env, _, mut client) = setup(10);
    assert_eq!(client.update_rate(&mut env, addr(9), 20), Err(Error::NotAdmin));
}

#[test]
fn test_rate_above_max_rejected() {
    let (mut env, admin, mut client) = setup(10);
    assert_eq!(client.update_rate(&mut env, admin, MAX_RATE + 1), Err(Error::RateTooHigh));
}

#[test]
fn test_admin_can_update_rate() {
    let (mut env, admin, mut client) = setup(10);
    let staker = addr(2);
    client.update_rate(&mut env, admin, 50).unwrap();
    env.sequence = 0;
    client.stake(&mut env, staker, 100).unwrap();
    env.sequence = 2;
    let reward = client.claim_rewards(&mut env, staker).unwrap();
    assert_eq!(reward, 100 * 50 * 2);
}

#[test]
fn claiming_restarts_the_clock() {
    let (mut env, _, mut client) = setup(3);
    let staker = addr(2);
    env.sequence = 5;
    client.stake(&mut env, staker, 7).unwrap();
    assert_eq!(client.staked_amount(&mut env, staker), 7);
    env.sequence = 9;
    assert_eq!(client.claim_rewards(&mut env, staker), Ok(7 * 3 * 4));
    assert_eq!(client.claim_rewards(&mut env, staker), Ok(0));
    let mut fresh = SecureStaking::new();
    assert_eq!(fresh.initialize(&mut env, addr(1), MAX_RATE + 1), Err(Error::RateTooHigh));
}

#[test]
fn rewards_claimed_in_steps_add_up() {
    let (mut env, _, mut stepwise) = setup(7);
    let (mut env2, _, mut at_once) = setup(7);
    let staker = addr(2);
    stepwise.stake(&mut env, staker, 30).unwrap();
    at_once.stake(&mut env2, staker, 30).unwrap();
    env.sequence = 4;
    let first = stepwise.claim_rewards(&mut env, staker).unwrap();
    env.sequence = 11;
    let second = stepwise.claim_rewards(&mut env, staker).unwrap();
    env2.sequence = 11;
    let whole = at_once.claim_rewards(&mut env2, staker).unwrap();
    assert_eq!(first + second, whole);
    assert_eq!(whole, 30 * 7 * 11);
}

#[test]
fn every_access_extends_the_entries_it_touches() {
    let kept = |key| TtlExtension { key, threshold: TTL_THRESHOLD, extend_to: TTL_EXTEND_TO };
    let (mut env, _, mut client) = setup(2);
    let staker = addr(2);
    assert_eq!(env.ttl_extensions, vec![kept(StorageKey::RewardRate)]);
    client.stake(&mut env, staker, 10).unwrap();
    env.sequence = 3;
    client.claim_rewards(&mut env, staker).unwrap();
    assert_eq!(
        env.ttl_extensions,
        vec![
            kept(StorageKey::RewardRate),
            kept(StorageKey::Stake(staker)),
            kept(StorageKey::StakedAt(staker)),
            kept(StorageKey::Stake(staker)),
            kept(StorageKey::StakedAt(staker)),
            kept(StorageKey::RewardRate),
            kept(StorageKey::StakedAt(staker)),
        ]
    );
    let before = env.ttl_extensions.len();
    assert_eq!(client.staked_amount(&mut env, addr(9)), 0);
    assert_eq!(env.ttl_extensions.len(), before);
    assert_eq!(client.staked_amount(&mut env, staker), 10);
    assert_eq!(env.ttl_extensions.last(), Some(&kept(StorageKey::Stake(staker))));
    assert!(env.events.is_empty());
}

fn addr(n: u64) -> Addr {
    Addr { kind: AddrKind::Account, id0: 0, id1: 0, id2: 0, id3: n }
}
