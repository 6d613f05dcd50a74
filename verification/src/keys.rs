//! Identity keys, and their counterparts in the key space of the handshake.

use vstd::prelude::*;
use vstd::std_specs::cmp::PartialEqSpecImpl;
use vstd::std_specs::convert::FromSpecImpl;
use ed25519_compact::x25519;

verus! {

/// The length of every key here, in bytes.
pub const KEY_LEN: usize = 32;

/// Whether two keys hold the same bytes.
pub fn same_bytes(a: &[u8; 32], b: &[u8; 32]) -> (same: bool)
    ensures
        same == (a@ == b@),
{
    let mut i: usize = 0;
    while i < 32
        invariant
            i <= 32,
            forall|j: int| 0 <= j < i ==> a@[j] == b@[j],
        decreases 32 - i,
    {
        if a[i] != b[i] {
            return false;
        }
        i = i + 1;
    }
    assert(a@ =~= b@);
    true
}

/// An Ed25519 public key: the long-term identity of a peer.
#[derive(Clone, Copy, Eq, Hash, Debug)]
pub struct PublicKey {
    pub bytes: [u8; 32],
}

impl PartialEq for PublicKey {
    fn eq(&self, other: &Self) -> (r: bool) {
        same_bytes(&self.bytes, &other.bytes)
    }
}

impl PartialEqSpecImpl for PublicKey {
    open spec fn obeys_eq_spec() -> bool {
        true
    }

    open spec fn eq_spec(&self, other: &Self) -> bool {
        self.bytes@ == other.bytes@
    }
}

impl PublicKey {
    pub fn new(bytes: [u8; 32]) -> (key: PublicKey)
        ensures
            key.bytes == bytes,
    {
        PublicKey { bytes }
    }

    /// The key with the given bytes, where they are as many as a key has.
    pub open spec fn of(bytes: Seq<u8>) -> PublicKey {
        choose|key: PublicKey| key.bytes@ == bytes
    }

    /// The key that `bytes` are, if they are as many as a key has.
    pub fn from_slice(bytes: &[u8]) -> (key: Option<PublicKey>)
        ensures
            key is Some <==> bytes@.len() == KEY_LEN,
            key matches Some(k) ==> k.bytes@ == bytes@ && k == Self::of(bytes@),
    {
        if bytes.len() != KEY_LEN {
            return None;
        }
        let mut key = [0u8; 32];
        let mut i: usize = 0;
        while i < 32
            invariant
                i <= 32,
                bytes@.len() == 32,
                forall|j: int| 0 <= j < i ==> key@[j] == bytes@[j],
            decreases 32 - i,
        {
            key[i] = bytes[i];
            i = i + 1;
        }
        assert(key@ =~= bytes@);
        let made = PublicKey { bytes: key };
        assert(made == Self::of(bytes@)) by {
            let chosen = Self::of(bytes@);
            assert(made.bytes@ == bytes@);
            assert(chosen.bytes@ == bytes@);
            assert(chosen.bytes =~= made.bytes);
        }
        Some(made)
    }
}

/// An Ed25519 private key: the seed it was made from and the public key
/// that belongs to it.
#[derive(Clone, Eq, PartialEq, Hash, Debug)]
pub struct PrivateKey {
    seed: [u8; 32],
    public: [u8; 32],
}

impl PrivateKey {
    pub fn new(seed: [u8; 32], public: [u8; 32]) -> (key: PrivateKey)
        ensures
            key.seed() == seed,
            key.public() == public,
    {
        PrivateKey { seed, public }
    }

    /// The secret seed.
    pub closed spec fn seed(&self) -> [u8; 32] {
        self.seed
    }

    /// The bytes of the public key that belongs to this key.
    pub closed spec fn public(&self) -> [u8; 32] {
        self.public
    }

    pub fn seed_bytes(&self) -> (bytes: &[u8; 32])
        ensures
            *bytes == self.seed(),
    {
        &self.seed
    }

    pub fn public_bytes(&self) -> (bytes: &[u8; 32])
        ensures
            *bytes == self.public(),
    {
        &self.public
    }

    /// The public key that belongs to this key.
    pub fn to_pk(&self) -> (pk: PublicKey)
        ensures
            pk.bytes == self.public(),
    {
        PublicKey { bytes: self.public }
    }
}

/// The identity of the local side: its long-term private key, with the
/// public key that the peers know it by.
#[derive(Clone, Eq, PartialEq, Debug)]
pub struct NodeKeys {
    pk: PublicKey,
    ecdh: PrivateKey,
}

impl From<PrivateKey> for NodeKeys {
    fn from(ecdh: PrivateKey) -> (keys: NodeKeys) {
        NodeKeys { pk: ecdh.to_pk(), ecdh }
    }
}

impl FromSpecImpl<PrivateKey> for NodeKeys {
    open spec fn obeys_from_spec() -> bool {
        true
    }

    open spec fn from_spec(ecdh: PrivateKey) -> NodeKeys {
        NodeKeys::of(ecdh)
    }
}

impl NodeKeys {
    /// The identity that `ecdh` makes.
    pub closed spec fn of(ecdh: PrivateKey) -> NodeKeys {
        NodeKeys { pk: PublicKey { bytes: ecdh.public() }, ecdh }
    }

    pub closed spec fn spec_pk(&self) -> PublicKey {
        self.pk
    }

    pub closed spec fn spec_ecdh(&self) -> PrivateKey {
        self.ecdh
    }

    /// The two parts of an identity belong together.
    pub open spec fn wf(&self) -> bool {
        self.spec_pk().bytes == self.spec_ecdh().public()
    }

    pub fn pk(&self) -> (pk: &PublicKey)
        ensures
            *pk == self.spec_pk(),
    {
        &self.pk
    }

    pub fn ecdh(&self) -> (ecdh: &PrivateKey)
        ensures
            *ecdh == self.spec_ecdh(),
    {
        &self.ecdh
    }
}

/// An identity made of a private key is sound, and holds that key and the
/// public key that belongs to it.
pub proof fn lemma_identity_of_key(ecdh: PrivateKey)
    ensures
        NodeKeys::of(ecdh).wf(),
        NodeKeys::of(ecdh).spec_ecdh() == ecdh,
        NodeKeys::of(ecdh).spec_pk().bytes == ecdh.public(),
{
}

/// What `x25519::SecretKey::from_ed25519` makes of the seed of an Ed25519
/// private key: the X25519 secret key that belongs to it.
pub uninterp spec fn x25519_secret_of(seed: Seq<u8>) -> Option<Seq<u8>>;

/// What `x25519::PublicKey::from_ed25519` makes of an Ed25519 public key:
/// the X25519 public key that belongs to it, where there is one.
pub uninterp spec fn x25519_public_of(public: Seq<u8>) -> Option<Seq<u8>>;

/// The bytes of a key that may be missing.
pub open spec fn key_bytes(key: Option<[u8; 32]>) -> Option<Seq<u8>> {
    match key {
        Some(k) => Some(k@),
        None => None,
    }
}

/// Calls `x25519::SecretKey::from_ed25519` of ed25519-compact on the
/// Ed25519 private key with the given seed and public key. The result is
/// taken to depend on the seed alone, which is all that the function reads
/// of the key. There always is one: the function hashes the seed and takes
/// thirty-two bytes of the hash.
#[verifier::external_body]
pub(crate) fn x25519_secret(seed: &[u8; 32], public: &[u8; 32]) -> (key: Option<[u8; 32]>)
    ensures
        key_bytes(key) == x25519_secret_of(seed@),
        key is Some,
{
    let mut raw = [0u8; 64];
    raw[..32].copy_from_slice(seed);
    raw[32..].copy_from_slice(public);
    match x25519::SecretKey::from_ed25519(&ed25519_compact::SecretKey::new(raw)) {
        Ok(key) => Some(*key),
        Err(_) => None,
    }
}

/// Calls `x25519::PublicKey::from_ed25519` of ed25519-compact on the
/// Ed25519 public key with the given bytes. The function refuses keys that
/// are no point of the curve or lie in a small subgroup.
#[verifier::external_body]
pub(crate) fn x25519_public(public: &[u8; 32]) -> (key: Option<[u8; 32]>)
    ensures
        key_bytes(key) == x25519_public_of(public@),
{
    match x25519::PublicKey::from_ed25519(&ed25519_compact::PublicKey::new(*public)) {
        Ok(key) => Some(*key),
        Err(_) => None,
    }
}

} // verus!
