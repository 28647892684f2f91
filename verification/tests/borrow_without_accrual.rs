use soroban_guard::host::{Addr, AddrKind, Env, Error};
use soroban_guard::vulnerable::borrow_without_accrual::secure::SecureBorrowWithoutAccrual;
use soroban_guard::vulnerable::borrow_without_accrual::{BorrowWithoutAccrual, BORROW_LIMIT};

const INITIAL_BORROW: i128 = 900;

fn setup_vulnerable(env: &mut Env) -> (Addr, BorrowWithoutAccrual) {
    let mut client = BorrowWithoutAccrual::new();
    let borrower = addr(1);
    client.initialize(env, borrower, INITIAL_BORROW).unwrap();
    (borrower, client)
}

fn setup_secure(env: &mut Env) -> (Addr, SecureBorrowWithoutAccrual) {
    let mut client = SecureBorrowWithoutAccrual::new();
    let borrower = addr(1);
    client.initialize(env, borrower, INITIAL_BORROW).unwrap();
    (borrower, client)
}

fn advance_ledgers(env: &mut Env, n: u32) {
    env.sequence += n;
}

#[test]
fn test_vulnerable_allows_borrow_after_interest_past_limit() {
    let mut env = Env::new(0, addr(1000));
    let (borrower, mut client) = setup_vulnerable(&mut env);
    advance_ledgers(&mut env, 12);
    assert!(client.debt_after_accrual(&env, borrower) > BORROW_LIMIT);
    assert!(client.debt(borrower) < BORROW_LIMIT);
    client.borrow(&mut env, borrower, 50).unwrap();
    assert_eq!(client.debt(borrower), INITIAL_BORROW + 50);
}

#[test]
fn test_vulnerable_boundary_exact_ledger_over_limit() {
    let mut env = Env::new(0, addr(1000));
    let (borrower, mut client) = setup_vulnerable(&mut env);
    advance_ledgers(&mut env, 12);
    assert_eq!(client.debt_after_accrual(&env, borrower), 1008);
    client.borrow(&mut env, borrower, 1).unwrap();
    assert_eq!(client.debt(borrower), INITIAL_BORROW + 1);
}

#[test]
fn test_secure_rejects_borrow_after_accrual() {
    let mut env = Env::new(0, addr(1000));
    let (borrower, mut client) = setup_secure(&mut env);
    advance_ledgers(&mut env, 12);
    assert!(client.debt_after_accrual(&env, borrower) > BORROW_LIMIT);
    assert_eq!(client.borrow(&mut env, borrower, 1), Err(Error::BorrowLimitExceeded));
    assert_eq!(client.debt(borrower), INITIAL_BORROW);
}

#[test]
fn secure_borrow_books_the_accrued_interest() {
    let mut env = Env::new(0, addr(1000));
    let (borrower, mut client) = setup_secure(&mut env);
    advance_ledgers(&mut env, 1);
    assert_eq!(client.debt_after_accrual(&env, borrower), 909);
    client.borrow(&mut env, borrower, 10).unwrap();
    assert_eq!(client.debt(borrower), 919);
    assert_eq!(client.borrow(&mut env, borrower, 0), Err(Error::AmountNotPositive));
    let mut other = SecureBorrowWithoutAccrual::new();
    assert_eq!(other.initialize(&mut env, borrower, BORROW_LIMIT + 1), Err(Error::InvalidBorrow));
}

fn addr(n: u64) -> Addr {
    Addr { kind: AddrKind::Account, id0: 0, id1: 0, id2: 0, id3: n }
}
