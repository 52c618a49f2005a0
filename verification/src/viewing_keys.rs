//! Per-identity bearer-token issuance and validation. Only the SHA-256
//! digest of a key is ever stored; validation compares digests.

use vstd::prelude::*;
use vstd::utf8::encode_utf8;
use crate::context::{env_entropy, EnvInfo};
use crate::crypto::{base64_encode, base64_of, bytes_eq, prng_rand_bytes, rand_bytes_of, sha_256,
    sha256_of};
use crate::strmap::StrMap;

verus! {

/// The characters of the fixed prefix of a minted viewing key.
pub open spec fn api_key_prefix() -> Seq<char> {
    "api_key_"@
}

/// The characters of a viewing key minted from the given seed and entropy.
pub open spec fn minted_key(seed: Seq<u8>, env: EnvInfo, entropy: Seq<u8>) -> Seq<char> {
    api_key_prefix() + base64_of(sha256_of(rand_bytes_of(seed, env_entropy(env, entropy))))
}

/// Per-identity viewing keys: at most one live key per identity.
pub struct ViewingKeys {
    keys: StrMap<Vec<u8>>,
}

impl ViewingKeys {
    /// The stored identities are pairwise distinct.
    pub closed spec fn wf(self) -> bool {
        self.keys.wf()
    }

    /// The stored key digest per identity.
    pub closed spec fn hashes(self) -> Map<Seq<char>, Seq<u8>> {
        Map::new(
            |identity: Seq<char>| self.keys.as_map().contains_key(identity),
            |identity: Seq<char>| self.keys.as_map()[identity]@,
        )
    }

    /// Whether `key` authenticates `identity`: a key digest is stored for
    /// the identity and it matches the digest of the presented key. An
    /// identity with no stored key never validates.
    pub open spec fn key_valid(self, identity: Seq<char>, key: Seq<char>) -> bool {
        self.hashes().contains_key(identity) && self.hashes()[identity] == sha256_of(
            encode_utf8(key),
        )
    }

    /// An empty store.
    pub fn new() -> (r: ViewingKeys)
        ensures
            r.wf(),
            r.hashes() == Map::<Seq<char>, Seq<u8>>::empty(),
    {
        let r = ViewingKeys { keys: StrMap::new() };
        proof {
            assert(r.hashes() =~= Map::<Seq<char>, Seq<u8>>::empty());
        }
        r
    }

    /// Installs `key` for `identity`, overwriting any prior key; the old
    /// key is invalid from here on.
    pub fn set(&mut self, identity: String, key: &String)
        requires
            old(self).wf(),
        ensures
            final(self).wf(),
            final(self).hashes() == old(self).hashes().insert(
                identity@,
                sha256_of(encode_utf8(key@)),
            ),
    {
        let hash = sha_256(key.as_str().as_bytes());
        self.keys.insert(identity, hash);
        proof {
            assert(self.hashes() =~= old(self).hashes().insert(
                identity@,
                sha256_of(encode_utf8(key@)),
            ));
        }
    }

    /// Mints a fresh key for `identity` from the store-wide seed and the
    /// call's entropy, installs it, and returns it.
    pub fn create(&mut self, identity: String, seed: &Vec<u8>, env: &EnvInfo, entropy: &[u8]) -> (r:
        String)
        requires
            old(self).wf(),
        ensures
            final(self).wf(),
            r@ == minted_key(seed@, *env, entropy@),
            final(self).hashes() == old(self).hashes().insert(
                identity@,
                sha256_of(encode_utf8(r@)),
            ),
    {
        let material = crate::context::build_env_entropy(env, entropy);
        let rand = prng_rand_bytes(seed.as_slice(), material.as_slice());
        let digest = sha_256(rand.as_slice());
        let encoded = base64_encode(digest.as_slice());
        let mut key = String::from_str("api_key_");
        key.append(encoded.as_str());
        proof {
            assert(key@ == minted_key(seed@, *env, entropy@));
        }
        self.set(identity, &key);
        key
    }

    /// Whether the presented key authenticates the identity: compares the
    /// digest of the presented key with the stored digest.
    pub fn check(&self, identity: &String, key: &String) -> (r: bool)
        requires
            self.wf(),
        ensures
            r == self.key_valid(identity@, key@),
    {
        match self.keys.get(identity) {
            None => false,
            Some(stored) => {
                let digest = sha_256(key.as_str().as_bytes());
                bytes_eq(stored, &digest)
            },
        }
    }
}

/// A presented key whose digest differs from the stored digest never
/// validates, whether a key is stored for the identity or not. That any
/// altered key string has a differing digest is collision resistance of
/// SHA-256, which is deliberately not assumed here: the digest is named,
/// not axiomatized.
pub proof fn lemma_key_mismatch_invalid(v: ViewingKeys, identity: Seq<char>, key: Seq<char>)
    requires
        v.hashes().contains_key(identity) ==> v.hashes()[identity] != sha256_of(
            encode_utf8(key),
        ),
    ensures
        !v.key_valid(identity, key),
{
}

/// Validation is deterministic and free of side effects: `check` takes
/// only shared references, and its result is a function of the stored key
/// digests, the identity, and the presented key alone — two stores with
/// the same digests answer every validation alike.
pub proof fn lemma_key_valid_deterministic(
    v1: ViewingKeys,
    v2: ViewingKeys,
    identity: Seq<char>,
    key: Seq<char>,
)
    requires
        v1.hashes() == v2.hashes(),
    ensures
        v1.key_valid(identity, key) == v2.key_valid(identity, key),
{
}

} // verus!
