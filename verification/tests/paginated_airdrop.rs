use soroban_guard::host::{Addr, AddrKind};
use soroban_guard::secure::paginated_airdrop::{PaginatedAirdrop, MAX_BATCH};

#[test]
fn test_paginated_distributes_all_users() {
    let mut client = PaginatedAirdrop::new();
    let users: Vec<Addr> = (0..120).map(|i| addr(i + 1)).collect();
    for u in &users {
        client.register(*u);
    }
    let mut next = 0u32;
    while next < client.user_count() {
        next = client.distribute_batch(next, 50, 200);
    }
    for u in &users {
        assert_eq!(client.balance(*u), 200);
    }
}

#[test]
fn test_count_clamped_to_max_batch() {
    let mut client = PaginatedAirdrop::new();
    for i in 0..10 {
        client.register(addr(i + 1));
    }
    let next = client.distribute_batch(0, 1000, 50);
    assert_eq!(next, 10);
}

#[test]
fn test_large_user_set_no_panic() {
    let mut client = PaginatedAirdrop::new();
    for i in 0..200 {
        client.register(addr(i + 1));
    }
    client.distribute_batch(0, MAX_BATCH, 100);
}

#[test]
fn batch_is_clamped_to_fifty_users() {
    let mut client = PaginatedAirdrop::new();
    for i in 0..120 {
        client.register(addr(i + 1));
    }
    assert_eq!(client.distribute_batch(0, 1000, 7), 50);
    assert_eq!(client.balance(addr(50)), 7);
    assert_eq!(client.balance(addr(51)), 0);
    assert_eq!(client.distribute_batch(110, 50, 7), 120);
    assert_eq!(client.distribute_batch(130, 5, 7), 120);
    assert_eq!(client.balance(addr(120)), 7);
}

#[test]
fn repeated_registration_is_credited_per_entry() {
    let mut client = PaginatedAirdrop::new();
    client.register(addr(1));
    client.register(addr(1));
    assert_eq!(client.user_count(), 2);
    assert_eq!(client.distribute_batch(0, 10, 5), 2);
    assert_eq!(client.balance(addr(1)), 10);
}

#[test]
fn two_batches_credit_what_one_batch_credits() {
    let mut paged = PaginatedAirdrop::new();
    let mut whole = PaginatedAirdrop::new();
    for i in 0..30 {
        paged.register(addr(i % 20 + 1));
        whole.register(addr(i % 20 + 1));
    }
    let mid = paged.distribute_batch(0, 12, 5);
    assert_eq!(paged.distribute_batch(mid, 18, 5), 30);
    assert_eq!(whole.distribute_batch(0, 30, 5), 30);
    for i in 0..20 {
        assert_eq!(paged.balance(addr(i + 1)), whole.balance(addr(i + 1)));
    }
    assert_eq!(whole.balance(addr(1)), 10);
    assert_eq!(whole.balance(addr(15)), 5);
}

fn addr(n: u64) -> Addr {
    Addr { kind: AddrKind::Account, id0: 0, id1: 0, id2: 0, id3: n }
}
