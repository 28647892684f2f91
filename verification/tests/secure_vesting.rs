use soroban_guard::host::{Addr, AddrKind, Env, Error};
use soroban_guard::secure::secure_vesting::SecureVesting;

fn setup() -> (Env, SecureVesting, Addr, Addr, Addr) {
    (Env::new(0, addr(1000)), SecureVesting::new(), addr(1), addr(2), addr(3))
}

#[test]
fn test_vested_amount_is_zero_before_cliff() {
    let (mut env, mut client, admin, treasury, beneficiary) = setup();
    env.sequence = 100;
    client.initialize(&mut env, admin, treasury);
    client.create_schedule(&mut env, beneficiary, 1_000, 200, 400).unwrap();
    env.sequence = 150;
    assert_eq!(client.vested_amount(&env, beneficiary), Ok(0));
}

#[test]
fn test_vested_amount_is_full_at_or_after_end_ledger() {
    let (mut env, mut client, admin, treasury, beneficiary) = setup();
    env.sequence = 100;
    client.initialize(&mut env, admin, treasury);
    client.create_schedule(&mut env, beneficiary, 2_000, 200, 400).unwrap();
    env.sequence = 400;
    assert_eq!(client.vested_amount(&env, beneficiary), Ok(2_000));
    env.sequence = 450;
    assert_eq!(client.vested_amount(&env, beneficiary), Ok(2_000));
}

#[test]
fn test_admin_revoke_moves_unvested_to_treasury_and_blocks_claims() {
    let (mut env, mut client, admin, treasury, beneficiary) = setup();
    env.sequence = 100;
    client.initialize(&mut env, admin, treasury);
    client.create_schedule(&mut env, beneficiary, 1_000, 200, 400).unwrap();
    env.sequence = 250;
    client.revoke(&mut env, beneficiary).unwrap();
    assert_eq!(client.treasury_balance(), 750);
    assert_eq!(client.claim(&mut env, beneficiary), Err(Error::ScheduleRevoked));
}

#[test]
fn vesting_is_linear_between_cliff_and_end() {
    let (mut env, mut client, admin, treasury, beneficiary) = setup();
    client.initialize(&mut env, admin, treasury);
    assert_eq!(
        client.create_schedule(&mut env, beneficiary, 1_000, 400, 400),
        Err(Error::InvalidSchedule)
    );
    client.create_schedule(&mut env, beneficiary, 1_000, 200, 400).unwrap();
    assert_eq!(
        client.create_schedule(&mut env, beneficiary, 1_000, 200, 400),
        Err(Error::ScheduleExists)
    );
    env.sequence = 300;
    assert_eq!(client.vested_amount(&env, beneficiary), Ok(500));
    assert_eq!(client.claim(&mut env, beneficiary), Ok(500));
    assert!(env.transfers.is_empty());
    assert_eq!(client.claim(&mut env, beneficiary), Err(Error::NothingClaimable));
    assert_eq!(client.get_position(beneficiary), Ok((1_000, 500, false)));
    assert_eq!(client.vested_amount(&env, addr(9)), Err(Error::ScheduleNotFound));
}

#[test]
fn vested_amount_only_grows_and_stays_within_the_grant() {
    let (mut env, mut client, admin, treasury, beneficiary) = setup();
    client.initialize(&mut env, admin, treasury);
    client.create_schedule(&mut env, beneficiary, 1_000, 200, 400).unwrap();
    let mut last = 0;
    for now in [0u32, 199, 200, 201, 299, 333, 399, 400, 10_000] {
        env.sequence = now;
        let v = client.vested_amount(&env, beneficiary).unwrap();
        assert!(v >= last && v <= 1_000);
        last = v;
    }
    assert_eq!(last, 1_000);
}

fn addr(n: u64) -> Addr {
    Addr { kind: AddrKind::Account, id0: 0, id1: 0, id2: 0, id3: n }
}
