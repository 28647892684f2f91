use soroban_guard::host::{Addr, AddrKind, Env};
use soroban_guard::vulnerable::asset_key_collision::secure::SecureVault;
use soroban_guard::vulnerable::asset_key_collision::AssetKeyCollisionContract;

#[test]
fn test_second_deposit_overwrites_first() {
    let mut env = Env::new(0, addr(1000));
    let mut client = AssetKeyCollisionContract::new();
    let (user, asset_a, asset_b) = (addr(1), addr(2), addr(3));
    client.deposit(&mut env, user, asset_a, 1000);
    client.deposit(&mut env, user, asset_b, 500);
    assert_eq!(client.balance(user, asset_a), 1500);
    assert_eq!(client.balance(user, asset_b), 1500);
}

#[test]
fn test_secure_both_balances_independent() {
    let mut env = Env::new(0, addr(1000));
    let mut client = SecureVault::new();
    let (user, asset_a, asset_b) = (addr(1), addr(2), addr(3));
    client.deposit(&mut env, user, asset_a, 1000);
    client.deposit(&mut env, user, asset_b, 500);
    assert_eq!(client.balance(user, asset_a), 1000);
    assert_eq!(client.balance(user, asset_b), 500);
}

#[test]
fn test_secure_different_users_do_not_interfere() {
    let mut env = Env::new(0, addr(1000));
    let mut client = SecureVault::new();
    let (user1, user2, asset) = (addr(1), addr(2), addr(3));
    client.deposit(&mut env, user1, asset, 300);
    client.deposit(&mut env, user2, asset, 700);
    assert_eq!(client.balance(user1, asset), 300);
    assert_eq!(client.balance(user2, asset), 700);
}

fn addr(n: u64) -> Addr {
    Addr { kind: AddrKind::Account, id0: 0, id1: 0, id2: 0, id3: n }
}
