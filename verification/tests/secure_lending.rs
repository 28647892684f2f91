use soroban_guard::host::{Addr, AddrKind, Env, Error};
use soroban_guard::secure::secure_lending::SecureLending;

fn setup() -> (Env, SecureLending) {
    (Env::new(0, addr(1000)), SecureLending::new())
}

#[test]
fn test_borrow_without_sufficient_collateral_panics() {
    let (mut env, mut client) = setup();
    let borrower = addr(1);
    client.initialize(&mut env, borrower);
    client.deposit_collateral(&mut env, borrower, 100).unwrap();
    assert_eq!(client.borrow(&mut env, borrower, 70), Err(Error::InsufficientCollateral));
    assert_eq!(client.get_position(borrower), (100, 0));
}

#[test]
fn test_position_below_liquidation_threshold_can_be_liquidated_by_any_caller() {
    let (mut env, mut client) = setup();
    let borrower = addr(1);
    let liquidator = addr(2);
    client.initialize(&mut env, borrower);
    client.deposit_collateral(&mut env, borrower, 150).unwrap();
    client.borrow(&mut env, borrower, 100).unwrap();
    client.collateral.set(borrower, 110i128);
    client.liquidate(&mut env, borrower, liquidator).unwrap();
    assert_eq!(client.get_position(borrower), (0, 0));
}

#[test]
fn test_repay_restores_borrower_collateral_access() {
    let (mut env, mut client) = setup();
    let borrower = addr(1);
    client.initialize(&mut env, borrower);
    client.deposit_collateral(&mut env, borrower, 150).unwrap();
    client.borrow(&mut env, borrower, 100).unwrap();
    assert_eq!(client.get_position(borrower), (150, 100));
    client.repay(&mut env, borrower, 100).unwrap();
    assert_eq!(client.get_position(borrower), (150, 0));
    client.borrow(&mut env, borrower, 100).unwrap();
    assert_eq!(client.get_position(borrower), (150, 100));
}

#[test]
fn healthy_positions_are_not_liquidated() {
    let (mut env, mut client) = setup();
    let borrower = addr(1);
    client.initialize(&mut env, borrower);
    assert_eq!(client.liquidate(&mut env, borrower, addr(2)), Err(Error::NothingToLiquidate));
    client.deposit_collateral(&mut env, borrower, 150).unwrap();
    client.borrow(&mut env, borrower, 100).unwrap();
    assert_eq!(client.liquidate(&mut env, borrower, addr(2)), Err(Error::NotLiquidatable));
    client.collateral.set(borrower, 120i128);
    assert_eq!(client.liquidate(&mut env, borrower, addr(2)), Err(Error::NotLiquidatable));
    assert_eq!(client.repay(&mut env, borrower, 101), Err(Error::RepayExceedsDebt));
    assert_eq!(client.deposit_collateral(&mut env, borrower, 0), Err(Error::AmountNotPositive));
}

fn addr(n: u64) -> Addr {
    Addr { kind: AddrKind::Account, id0: 0, id1: 0, id2: 0, id3: n }
}
