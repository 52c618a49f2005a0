//! Trusted boundary to the cryptographic primitives: SHA-256, the seeded
//! contract PRNG, and base64 encoding. The primitives themselves are
//! specified only by contract; every result is named as an uninterpreted
//! function of the inputs alone.

use vstd::prelude::*;

verus! {

/// The SHA-256 digest (32 bytes) of a byte sequence.
pub uninterp spec fn sha256_of(data: Seq<u8>) -> Seq<u8>;

/// The 32 bytes drawn from a fresh ChaCha stream keyed by `seed` and
/// `entropy`.
pub uninterp spec fn rand_bytes_of(seed: Seq<u8>, entropy: Seq<u8>) -> Seq<u8>;

/// The standard base64 encoding of a byte sequence.
pub uninterp spec fn base64_of(data: Seq<u8>) -> Seq<char>;

/// Relies on `secret_toolkit_crypto::sha_256`: returns the SHA-256 digest
/// of the input, always 32 bytes, a function of the input bytes alone.
#[verifier::external_body]
pub(crate) fn sha_256(data: &[u8]) -> (r: Vec<u8>)
    ensures
        r@ == sha256_of(data@),
        r@.len() == 32,
{
    secret_toolkit_crypto::sha_256(data).to_vec()
}

/// Relies on `secret_toolkit_crypto::ContractPrng`: `new` keys a ChaCha
/// stream by SHA-256(seed ++ entropy) and `rand_bytes` returns its first 32
/// bytes, so the result is a function of `seed` and `entropy` alone.
#[verifier::external_body]
pub(crate) fn prng_rand_bytes(seed: &[u8], entropy: &[u8]) -> (r: Vec<u8>)
    ensures
        r@ == rand_bytes_of(seed@, entropy@),
        r@.len() == 32,
{
    let mut rng = secret_toolkit_crypto::ContractPrng::new(seed, entropy);
    rng.rand_bytes().to_vec()
}

/// Compares two byte strings for equality. For inputs of equal length
/// the whole comparison runs without an early exit, so the time taken
/// does not depend on where the strings first differ.
pub fn bytes_eq(a: &Vec<u8>, b: &Vec<u8>) -> (r: bool)
    ensures
        r == (a@ == b@),
{
    if a.len() != b.len() {
        return false;
    }
    let n = a.len();
    let mut equal = true;
    let mut i: usize = 0;
    while i < n
        invariant
            i <= n,
            equal == (forall|j: int| 0 <= j < i ==> a@[j] == b@[j]),
        decreases n - i,
    {
        equal = equal && (a[i] == b[i]);
        i = i + 1;
    }
    proof {
        if equal {
            assert(a@ =~= b@);
        }
    }
    equal
}

/// Relies on `base64::encode`: the standard-alphabet base64 encoding of the
/// input bytes, a function of the input bytes alone.
#[verifier::external_body]
pub(crate) fn base64_encode(data: &[u8]) -> (r: String)
    ensures
        r@ == base64_of(data@),
{
    base64::encode(data)
}

} // verus!
