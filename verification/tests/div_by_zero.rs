use soroban_guard::host::{Addr, AddrKind, Env};
use soroban_guard::vulnerable::div_by_zero::StakingContract;

#[test]
fn test_normal_distribution() {
    let mut env = Env::new(0, addr(100));
    let mut client = StakingContract::new();
    let staker = addr(1);
    client.stake(&mut env, staker, 500);
    assert_eq!(client.distribute_rewards(1000), 2);
    assert_eq!(env.auths, vec![staker]);
}

#[test]
fn test_single_staker_receives_full_reward_ratio() {
    let mut env = Env::new(0, addr(100));
    let mut client = StakingContract::new();
    client.stake(&mut env, addr(1), 1);
    assert_eq!(client.distribute_rewards(100), 100);
}

#[test]
fn stakes_accumulate_per_staker_and_in_total() {
    let mut env = Env::new(0, addr(100));
    let mut client = StakingContract::new();
    client.stake(&mut env, addr(1), 10);
    client.stake(&mut env, addr(2), 5);
    client.stake(&mut env, addr(1), 7);
    assert_eq!(client.staked_amount(addr(1)), 17);
    assert_eq!(client.staked_amount(addr(2)), 5);
    assert_eq!(client.staked_amount(addr(3)), 0);
    assert_eq!(client.total_staked(), 22);
}

fn addr(n: u64) -> Addr {
    Addr { kind: AddrKind::Account, id0: 0, id1: 0, id2: 0, id3: n }
}
