//! An airdrop claimed with a Merkle proof of (claimant, amount), once per
//! claimant, paid out in a token.
use vstd::prelude::*;
use crate::host::{Addr, AddrKind, Env, Error, Event, Transfer, TtlExtension, env_after_all, id_bytes};
use crate::table::{Table, TableKey};
use soroban_sdk::xdr::{AccountId, PublicKey, ScAddress, ToXdr, Uint256};
use soroban_sdk::TryFromVal;

verus! {

/// The SHA-256 digest of `data`, as the Soroban host computes it.
pub uninterp spec fn sha256_of(data: Seq<u8>) -> Seq<u8>;

/// The most bytes hashed in one call: the host meters hashing per byte
/// against a fixed budget (100 million instructions by default), and this
/// bound keeps a hash well within it.
pub const MAX_HASHED_LEN: usize = 100_000;

/// Calls `soroban_sdk::crypto::Crypto::sha256` on `data` in a fresh host
/// environment; the contract claims only that the 32 bytes returned are the
/// digest that `sha256_of` names, a function of `data` alone. Inputs beyond
/// `MAX_HASHED_LEN` bytes are left out, as the host's budget could run out
/// and panic.
#[verifier::external_body]
fn sha256(data: &Vec<u8>) -> (r: [u8; 32])
    requires
        data@.len() <= MAX_HASHED_LEN,
    ensures
        r@ == sha256_of(data@),
{
    let env = soroban_sdk::Env::default();
    let bytes = soroban_sdk::Bytes::from_slice(&env, data.as_slice());
    env.crypto().sha256(&bytes).to_array()
}

/// The XDR encoding of the address of kind `kind` and 32-byte id `id`, as
/// the Soroban host serializes it: an `ScVal` of type address (tag 18), an
/// `ScAddress` of type account (tag 0) holding an Ed25519 key (tag 0), or of
/// type contract (tag 1), then the id; every tag is 4 big-endian bytes.
pub open spec fn xdr_of(kind: AddrKind, id: Seq<u8>) -> Seq<u8> {
    match kind {
        AddrKind::Account => seq![0u8, 0, 0, 18, 0, 0, 0, 0, 0, 0, 0, 0] + id,
        AddrKind::Contract => seq![0u8, 0, 0, 18, 0, 0, 0, 1] + id,
    }
}

/// Calls `soroban_sdk::xdr::ToXdr::to_xdr` on the address of kind `kind` and
/// id `id`, built as an `ScAddress` and converted into an `Address` in a
/// fresh host environment. The contract claims that the bytes returned are
/// the XDR encoding `xdr_of` spells out.
#[verifier::external_body]
fn address_xdr(kind: AddrKind, id: &[u8; 32]) -> (r: Vec<u8>)
    ensures
        r@ == xdr_of(kind, id@),
{
    let env = soroban_sdk::Env::default();
    let sc = match kind {
        AddrKind::Account => ScAddress::Account(AccountId(PublicKey::PublicKeyTypeEd25519(Uint256(*id)))),
        AddrKind::Contract => ScAddress::Contract(soroban_sdk::xdr::Hash(*id)),
    };
    let address = soroban_sdk::Address::try_from_val(&env, &sc).unwrap();
    address.to_xdr(&env).iter().collect()
}

/// The bytes by which the leaves name `a`: the XDR of the address.
pub open spec fn address_key(a: Addr) -> Seq<u8> {
    xdr_of(a.kind, id_bytes(a))
}

/// The 16 big-endian bytes of `x` in two's complement.
pub open spec fn be_bytes(x: i128) -> Seq<u8> {
    Seq::new(16, |k: int| (((x as u128) >> ((120 - 8 * k) as u32)) & 0xff) as u8)
}

/// The leaf of the tree for `claimant` and `amount`: the digest of the
/// claimant's address bytes followed by the amount.
pub open spec fn leaf(claimant: Addr, amount: i128) -> Seq<u8> {
    sha256_of(address_key(claimant) + be_bytes(amount))
}

/// Whether `a` is at most `b` in byte-wise lexicographic order: at the first
/// index where they differ, `a` holds the smaller byte.
pub open spec fn lex_le(a: Seq<u8>, b: Seq<u8>) -> bool {
    forall|i: int|
        #![trigger a[i], b[i]]
        0 <= i < a.len() && (forall|j: int| 0 <= j < i ==> a[j] == b[j]) && a[i] != b[i] ==> a[i] < b[i]
}

/// The parent of nodes `a` and `b`: the digest of the smaller followed by the
/// larger.
pub open spec fn parent(a: Seq<u8>, b: Seq<u8>) -> Seq<u8> {
    if lex_le(a, b) {
        sha256_of(a + b)
    } else {
        sha256_of(b + a)
    }
}

/// The node reached from `node` by combining it with each sibling of `proof`
/// in turn.
pub open spec fn climb(node: Seq<u8>, proof: Seq<[u8; 32]>) -> Seq<u8>
    decreases proof.len(),
{
    if proof.len() == 0 {
        node
    } else {
        parent(climb(node, proof.drop_last()), proof.last()@)
    }
}

fn append_bytes(v: &mut Vec<u8>, a: &[u8; 32])
    ensures
        final(v)@ == old(v)@ + a@,
{
    let mut i: usize = 0;
    while i < 32
        invariant
            i <= 32,
            v@ == old(v)@ + a@.take(i as int),
        decreases 32 - i,
    {
        v.push(a[i]);
        i = i + 1;
        assert(v@ =~= old(v)@ + a@.take(i as int));
    }
    assert(a@.take(32) =~= a@);
}

/// The leaf for `claimant` and `amount`.
pub fn leaf_hash(claimant: Addr, amount: i128) -> (r: [u8; 32])
    ensures
        r@ == leaf(claimant, amount),
{
    let id = claimant.id_array();
    let key = address_xdr(claimant.kind, &id);
    let mut data: Vec<u8> = Vec::new();
    let mut i: usize = 0;
    while i < key.len()
        invariant
            i <= key@.len(),
            data@ == key@.take(i as int),
        decreases key@.len() - i,
    {
        data.push(key[i]);
        i = i + 1;
        assert(data@ =~= key@.take(i as int));
    }
    assert(key@.take(key@.len() as int) =~= key@);
    let x = amount as u128;
    let mut k: u32 = 0;
    while k < 16
        invariant
            k <= 16,
            x == amount as u128,
            data@ == key@ + be_bytes(amount).take(k as int),
        decreases 16 - k,
    {
        let b = ((x >> (120 - 8 * k)) & 0xff) as u8;
        data.push(b);
        k = k + 1;
        assert(data@ =~= key@ + be_bytes(amount).take(k as int));
    }
    assert(be_bytes(amount).take(16) =~= be_bytes(amount));
    proof {
        assert(key@ + be_bytes(amount) == address_key(claimant) + be_bytes(amount));
    }
    sha256(&data)
}

fn lex_le_exec(a: &[u8; 32], b: &[u8; 32]) -> (r: bool)
    ensures
        r == lex_le(a@, b@),
{
    let mut i: usize = 0;
    while i < 32
        invariant
            i <= 32,
            forall|j: int| 0 <= j < i ==> a@[j] == b@[j],
        decreases 32 - i,
    {
        if a[i] != b[i] {
            assert(forall|j: int| 0 <= j < i ==> a@[j] == b@[j]);
            return a[i] < b[i];
        }
        i = i + 1;
    }
    true
}

/// The parent of nodes `a` and `b`.
pub fn hash_pair(a: &[u8; 32], b: &[u8; 32]) -> (r: [u8; 32])
    ensures
        r@ == parent(a@, b@),
{
    let mut data: Vec<u8> = Vec::new();
    if lex_le_exec(a, b) {
        append_bytes(&mut data, a);
        append_bytes(&mut data, b);
        assert(data@ =~= a@ + b@);
    } else {
        append_bytes(&mut data, b);
        append_bytes(&mut data, a);
        assert(data@ =~= b@ + a@);
    }
    sha256(&data)
}

/// The admin, the Merkle root of the entitlements, the payout token, and who
/// has claimed.
pub struct SecureAirdrop {
    admin: Option<Addr>,
    merkle_root: Option<[u8; 32]>,
    token: Option<Addr>,
    claimed: Table<Addr, bool>,
}

impl SecureAirdrop {
    pub closed spec fn admin(&self) -> Option<Addr> {
        self.admin
    }

    pub closed spec fn merkle_root(&self) -> Option<[u8; 32]> {
        self.merkle_root
    }

    pub closed spec fn token(&self) -> Option<Addr> {
        self.token
    }

    pub closed spec fn claimed(&self) -> Map<Addr, bool> {
        self.claimed@
    }

    /// Whether `a` has claimed.
    pub open spec fn has_claimed(&self, a: Addr) -> bool {
        self.claimed().contains_key(a) && self.claimed()[a]
    }

    /// An airdrop not yet set up.
    pub fn new() -> (c: Self)
        ensures
            c.admin() is None,
            c.merkle_root() is None,
            c.token() is None,
            c.claimed() == Map::<Addr, bool>::empty(),
    {
        SecureAirdrop { admin: None, merkle_root: None, token: None, claimed: Table::new() }
    }

    /// Sets the admin, the Merkle root and the token, once.
    pub fn initialize(&mut self, admin: Addr, merkle_root: [u8; 32], token: Addr) -> (r: Result<(), Error>)
        ensures
            old(self).admin() is Some <==> r is Err,
            r is Err ==> r == Err::<(), Error>(Error::AlreadyInitialized),
            r is Err ==> *final(self) == *old(self),
            r is Ok ==> {
                &&& final(self).admin() == Some(admin)
                &&& final(self).merkle_root() == Some(merkle_root)
                &&& final(self).token() == Some(token)
                &&& final(self).claimed() == old(self).claimed()
            },
    {
        if self.admin.is_some() {
            return Err(Error::AlreadyInitialized);
        }
        self.admin = Some(admin);
        self.merkle_root = Some(merkle_root);
        self.token = Some(token);
        Ok(())
    }

    /// Moves `amount` of the token from the admin, who must authorize, to
    /// this contract, and publishes a `Fund` event.
    pub fn fund(&self, env: &mut Env, amount: i128) -> (r: Result<(), Error>)
        ensures
            self.admin() is None || self.token() is None <==> r is Err,
            r is Err ==> r == Err::<(), Error>(Error::NotInitialized),
            r is Ok ==> env_after_all(
                *old(env),
                *final(env),
                seq![self.admin()->0],
                seq![Transfer { token: self.token()->0, from: self.admin()->0, to: old(env).current_contract, amount }],
                seq![Event::Fund { admin: self.admin()->0, amount }],
                seq![],
            ),
    {
        let admin = match self.admin {
            Some(a) => a,
            None => {
                return Err(Error::NotInitialized);
            },
        };
        let token = match self.token {
            Some(t) => t,
            None => {
                return Err(Error::NotInitialized);
            },
        };
        env.require_auth(admin);
        let contract = env.current_contract;
        env.transfer(token, admin, contract, amount);
        env.publish(Event::Fund { admin, amount });
        proof {
            assert(env.auths@ =~= old(env).auths@ + seq![admin]);
            assert(env.transfers@ =~= old(env).transfers@ + seq![Transfer { token, from: admin, to: contract, amount }]);
            assert(env.events@ =~= old(env).events@ + seq![Event::Fund { admin, amount }]);
            assert(env.ttl_extensions@ =~= old(env).ttl_extensions@ + Seq::<TtlExtension>::empty());
        }
        Ok(())
    }

    fn verify_merkle_proof(&self, claimant: Addr, amount: i128, proof: &Vec<[u8; 32]>) -> (r: Result<(), Error>)
        ensures
            self.merkle_root() is None ==> r == Err::<(), Error>(Error::NotInitialized),
            self.merkle_root() is Some && climb(leaf(claimant, amount), proof@) != self.merkle_root()->0@
                ==> r == Err::<(), Error>(Error::InvalidProof),
            self.merkle_root() is Some && climb(leaf(claimant, amount), proof@) == self.merkle_root()->0@
                ==> r is Ok,
    {
        let root = match self.merkle_root {
            Some(r) => r,
            None => {
                return Err(Error::NotInitialized);
            },
        };
        let mut node = leaf_hash(claimant, amount);
        let mut i: usize = 0;
        while i < proof.len()
            invariant
                i <= proof@.len(),
                node@ == climb(leaf(claimant, amount), proof@.take(i as int)),
            decreases proof@.len() - i,
        {
            proof {
                assert(proof@.take(i + 1).drop_last() =~= proof@.take(i as int));
            }
            node = hash_pair(&node, &proof[i]);
            i = i + 1;
        }
        assert(proof@.take(proof@.len() as int) =~= proof@);
        proof {
            broadcast use vstd::array::group_array_axioms;
            if node@ == root@ {
                assert forall|j: int| 0 <= j < 32 implies node[j] == root[j] by {
                    assert(node@[j] == root@[j]);
                }
                assert(node =~= root);
            }
        }
        if node.same(&root) {
            Ok(())
        } else {
            Err(Error::InvalidProof)
        }
    }

    /// Pays `amount` of the token to `claimant`, who must authorize, when
    /// `proof` leads from the leaf of (`claimant`, `amount`) to the Merkle
    /// root, records the claim and publishes a `Claim` event. Refused for a
    /// second claim, an invalid proof, or before initialization.
    pub fn claim(&mut self, env: &mut Env, claimant: Addr, amount: i128, proof: &Vec<[u8; 32]>) -> (r: Result<(), Error>)
        ensures
            forall|a: Addr| old(self).has_claimed(a) ==> #[trigger] final(self).has_claimed(a),
            r is Ok ==> final(self).has_claimed(claimant),
            r is Err ==> *final(self) == *old(self),
            old(self).has_claimed(claimant) ==> r == Err::<(), Error>(Error::AlreadyClaimed),
            !old(self).has_claimed(claimant) && old(self).merkle_root() is None
                ==> r == Err::<(), Error>(Error::NotInitialized),
            !old(self).has_claimed(claimant) && old(self).merkle_root() is Some
                && climb(leaf(claimant, amount), proof@) != old(self).merkle_root()->0@
                ==> r == Err::<(), Error>(Error::InvalidProof),
            !old(self).has_claimed(claimant) && old(self).merkle_root() is Some
                && climb(leaf(claimant, amount), proof@) == old(self).merkle_root()->0@ ==> {
                &&& old(self).token() is None ==> r == Err::<(), Error>(Error::NotInitialized)
                &&& old(self).token() is Some ==> {
                    &&& r is Ok
                    &&& env_after_all(
                        *old(env),
                        *final(env),
                        seq![claimant],
                        seq![Transfer { token: old(self).token()->0, from: old(env).current_contract, to: claimant, amount }],
                        seq![Event::Claim { claimant, amount }],
                        seq![],
                    )
                    &&& final(self).claimed() == old(self).claimed().insert(claimant, true)
                    &&& final(self).admin() == old(self).admin()
                    &&& final(self).merkle_root() == old(self).merkle_root()
                    &&& final(self).token() == old(self).token()
                }
            },
    {
        env.require_auth(claimant);
        if self.get_claimed(claimant) {
            return Err(Error::AlreadyClaimed);
        }
        if let Err(e) = self.verify_merkle_proof(claimant, amount, proof) {
            return Err(e);
        }
        let token = match self.token {
            Some(t) => t,
            None => {
                return Err(Error::NotInitialized);
            },
        };
        self.claimed.set(claimant, true);
        let contract = env.current_contract;
        env.transfer(token, contract, claimant, amount);
        env.publish(Event::Claim { claimant, amount });
        proof {
            assert(env.auths@ =~= old(env).auths@ + seq![claimant]);
            assert(env.transfers@ =~= old(env).transfers@ + seq![Transfer { token, from: contract, to: claimant, amount }]);
            assert(env.events@ =~= old(env).events@ + seq![Event::Claim { claimant, amount }]);
            assert(env.ttl_extensions@ =~= old(env).ttl_extensions@ + Seq::<TtlExtension>::empty());
        }
        Ok(())
    }

    /// Whether `address` has claimed.
    pub fn get_claimed(&self, address: Addr) -> (r: bool)
        ensures
            r == self.has_claimed(address),
    {
        match self.claimed.get(&address) {
            Some(c) => *c,
            None => false,
        }
    }
}

} // verus!
