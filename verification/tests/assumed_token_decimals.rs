use soroban_guard::host::{Addr, AddrKind, Env, Error, Sym};
use soroban_guard::vulnerable::assumed_token_decimals::secure::{normalise, SecureMultiAsset};
use soroban_guard::vulnerable::assumed_token_decimals::{normalise_vulnerable, VulnerableMultiAsset};

const TK6: Sym = Sym(6);
const TK9: Sym = Sym(9);

#[test]
fn test_different_decimals_produce_same_normalised_value() {
    let mut env = Env::new(0, addr(100));
    let mut client = VulnerableMultiAsset::new();
    let alice = addr(1);
    client.deposit(&mut env, alice, TK6, 1).unwrap();
    client.deposit(&mut env, alice, TK9, 1).unwrap();
    let val6 = client.balance(TK6, alice);
    let val9 = client.balance(TK9, alice);
    assert_eq!(val6, val9, "vulnerable: both tokens get same normalised value");
    assert_eq!(val6, 10_i128.pow(7));
}

#[test]
fn test_equal_human_amounts_differ_in_raw_units() {
    let mut env = Env::new(0, addr(100));
    let mut client = VulnerableMultiAsset::new();
    let alice = addr(1);
    client.deposit(&mut env, alice, TK6, 1_000_000).unwrap();
    client.deposit(&mut env, alice, TK9, 1_000_000_000).unwrap();
    let val6 = client.balance(TK6, alice);
    let val9 = client.balance(TK9, alice);
    assert_ne!(val6, val9, "vulnerable: equal human amounts produce unequal normalised values");
}

#[test]
fn test_secure_equal_human_amounts_normalise_correctly() {
    let mut env = Env::new(0, addr(100));
    let mut client = SecureMultiAsset::new();
    let alice = addr(1);
    client.register_token(TK6, 6);
    client.register_token(TK9, 9);
    client.deposit(&mut env, alice, TK6, 1_000_000).unwrap();
    client.deposit(&mut env, alice, TK9, 1_000_000_000).unwrap();
    let val6 = client.balance(TK6, alice);
    let val9 = client.balance(TK9, alice);
    assert_eq!(val6, val9, "secure: equal human amounts produce equal normalised values");
}

#[test]
fn normalise_scales_up_and_down() {
    assert_eq!(normalise_vulnerable(3), 30_000_000);
    assert_eq!(normalise(5, 6), 5_000);
    assert_eq!(normalise(5, 9), 5);
    assert_eq!(normalise(12_345, 12), 12);
    assert_eq!(normalise(-12_345, 12), -12);
}

#[test]
fn deposits_are_refused_with_reasons() {
    let mut env = Env::new(0, addr(100));
    let mut v = VulnerableMultiAsset::new();
    assert_eq!(v.deposit(&mut env, addr(1), TK6, 0), Err(Error::AmountNotPositive));
    let mut s = SecureMultiAsset::new();
    assert_eq!(s.deposit(&mut env, addr(1), TK6, 5), Err(Error::TokenNotRegistered));
    s.register_token(TK6, 12);
    assert_eq!(s.deposit(&mut env, addr(1), TK6, 5), Err(Error::NormalisedZero));
    assert_eq!(s.balance(TK6, addr(1)), 0);
    assert_eq!(s.total_value(TK6), 0);
}

fn addr(n: u64) -> Addr {
    Addr { kind: AddrKind::Account, id0: 0, id1: 0, id2: 0, id3: n }
}
