use soroban_guard::host::{Addr, AddrKind, Env, Error, Event, Transfer};
use soroban_guard::secure::secure_airdrop::{hash_pair, leaf_hash, SecureAirdrop};

fn build_tree(claimant: Addr, amount: i128, other: Addr) -> ([u8; 32], Vec<[u8; 32]>) {
    let leaf0 = leaf_hash(claimant, amount);
    let leaf1 = leaf_hash(other, 0i128);
    let root = hash_pair(&leaf0, &leaf1);
    (root, vec![leaf1])
}

fn setup() -> (Env, Addr, Addr, Addr, Addr) {
    let env = Env::new(0, addr(1000));
    (env, addr(50), addr(1), addr(2), addr(3))
}

#[test]
fn test_valid_proof_claims_successfully() {
    let (mut env, token_id, admin, claimant, other) = setup();
    let amount = 500i128;
    let (root, proof) = build_tree(claimant, amount, other);
    let mut client = SecureAirdrop::new();
    client.initialize(admin, root, token_id).unwrap();
    client.fund(&mut env, amount).unwrap();
    assert!(!client.get_claimed(claimant));
    client.claim(&mut env, claimant, amount, &proof).unwrap();
    assert!(client.get_claimed(claimant));
    let paid = Transfer { token: token_id, from: addr(1000), to: claimant, amount };
    assert_eq!(env.transfers.last(), Some(&paid));
}

#[test]
fn test_double_claim_panics() {
    let (mut env, token_id, admin, claimant, other) = setup();
    let amount = 500i128;
    let (root, proof) = build_tree(claimant, amount, other);
    let mut client = SecureAirdrop::new();
    client.initialize(admin, root, token_id).unwrap();
    client.fund(&mut env, amount * 2).unwrap();
    client.claim(&mut env, claimant, amount, &proof).unwrap();
    assert_eq!(
        client.claim(&mut env, claimant, amount, &proof),
        Err(Error::AlreadyClaimed)
    );
    assert_eq!(env.transfers.len(), 2);
}

#[test]
fn test_invalid_proof_rejected_before_state_change() {
    let (mut env, token_id, admin, claimant, other) = setup();
    let amount = 500i128;
    let (root, _valid_proof) = build_tree(claimant, amount, other);
    let mut client = SecureAirdrop::new();
    client.initialize(admin, root, token_id).unwrap();
    client.fund(&mut env, amount).unwrap();
    let bad_proof = vec![[0u8; 32]];
    assert_eq!(
        client.claim(&mut env, claimant, amount, &bad_proof),
        Err(Error::InvalidProof)
    );
    assert!(!client.get_claimed(claimant));
}

#[test]
fn wrong_amount_is_an_invalid_proof() {
    let (mut env, token_id, admin, claimant, other) = setup();
    let (root, proof) = build_tree(claimant, 500, other);
    let mut client = SecureAirdrop::new();
    assert_eq!(client.fund(&mut env, 1), Err(Error::NotInitialized));
    client.initialize(admin, root, token_id).unwrap();
    assert_eq!(
        client.claim(&mut env, claimant, 501, &proof),
        Err(Error::InvalidProof)
    );
    assert_eq!(client.initialize(admin, root, token_id), Err(Error::AlreadyInitialized));
}

#[test]
fn leaf_is_the_sha256_of_address_xdr_and_big_endian_amount() {
    let account_leaf: [u8; 32] = [
        33, 125, 189, 15, 143, 13, 196, 89, 21, 69, 123, 2, 97, 69, 80, 128, 111, 54, 3, 241, 77,
        6, 103, 74, 201, 107, 235, 182, 93, 102, 17, 209,
    ];
    let contract_leaf: [u8; 32] = [
        188, 213, 107, 54, 49, 238, 107, 136, 13, 137, 193, 8, 105, 13, 126, 109, 182, 150, 230,
        191, 160, 168, 170, 20, 95, 238, 152, 178, 37, 218, 63, 128,
    ];
    assert_eq!(leaf_hash(addr(7), 500), account_leaf);
    let contract = Addr { kind: AddrKind::Contract, ..addr(7) };
    assert_eq!(leaf_hash(contract, 500), contract_leaf);
    let a = leaf_hash(addr(1), 2);
    let b = leaf_hash(addr(1), 3);
    assert_eq!(hash_pair(&a, &b), hash_pair(&b, &a));
    assert_ne!(hash_pair(&a, &b), a);
}

#[test]
fn another_address_cannot_claim_a_leaf() {
    let (mut env, token_id, admin, claimant, other) = setup();
    let (root, proof) = build_tree(claimant, 500, other);
    let mut client = SecureAirdrop::new();
    client.initialize(admin, root, token_id).unwrap();
    let intruder = addr(77);
    assert_eq!(client.claim(&mut env, intruder, 500, &proof), Err(Error::InvalidProof));
    assert!(!client.get_claimed(intruder));
    client.claim(&mut env, claimant, 500, &proof).unwrap();
    assert_eq!(env.events.last(), Some(&Event::Claim { claimant, amount: 500 }));
}

fn addr(n: u64) -> Addr {
    Addr { kind: AddrKind::Account, id0: 0, id1: 0, id2: 0, id3: n }
}
