//! The per-call environment the platform hands to a contract, and the
//! entropy material derived from it.

use vstd::prelude::*;
use crate::crypto::rand_bytes_of;

verus! {

/// Block data, the transport-verified sender, and the executing contract's
/// own identity, as supplied by the platform for one call.
pub struct EnvInfo {
    /// Height of the block the call executes in.
    pub block_height: u64,
    /// Timestamp of the block the call executes in.
    pub block_time: u64,
    /// Transport-verified address of the message sender.
    pub sender: String,
    /// Address of the executing contract.
    pub contract_address: String,
    /// Code hash of the executing contract.
    pub contract_code_hash: String,
}

/// Big-endian byte representation of a 64-bit integer.
pub open spec fn u64_be_bytes(x: u64) -> Seq<u8> {
    seq![
        (x >> 56) as u8,
        (x >> 48) as u8,
        (x >> 40) as u8,
        (x >> 32) as u8,
        (x >> 24) as u8,
        (x >> 16) as u8,
        (x >> 8) as u8,
        x as u8,
    ]
}

/// The entropy material mixed into the generator for one call: block
/// height, block time, the sender address, and caller-supplied entropy.
pub open spec fn env_entropy(env: EnvInfo, extra: Seq<u8>) -> Seq<u8> {
    u64_be_bytes(env.block_height) + u64_be_bytes(env.block_time)
        + vstd::utf8::encode_utf8(env.sender@) + extra
}

/// The generator output for one call: the stored seed mixed with the
/// call's entropy material.
pub open spec fn fresh_rand_bytes(seed: Seq<u8>, env: EnvInfo, extra: Seq<u8>) -> Seq<u8> {
    rand_bytes_of(seed, env_entropy(env, extra))
}

/// Appends the big-endian bytes of `x` to `out`.
pub fn push_u64_be_bytes(out: &mut Vec<u8>, x: u64)
    ensures
        final(out)@ == old(out)@ + u64_be_bytes(x),
{
    out.push(#[verifier::truncate] ((x >> 56) as u8));
    out.push(#[verifier::truncate] ((x >> 48) as u8));
    out.push(#[verifier::truncate] ((x >> 40) as u8));
    out.push(#[verifier::truncate] ((x >> 32) as u8));
    out.push(#[verifier::truncate] ((x >> 24) as u8));
    out.push(#[verifier::truncate] ((x >> 16) as u8));
    out.push(#[verifier::truncate] ((x >> 8) as u8));
    out.push(#[verifier::truncate] (x as u8));
    proof {
        assert(out@ =~= old(out)@ + u64_be_bytes(x));
    }
}

/// Appends every byte of `src` to `out`.
pub fn push_bytes(out: &mut Vec<u8>, src: &[u8])
    ensures
        final(out)@ == old(out)@ + src@,
{
    let mut i: usize = 0;
    while i < src.len()
        invariant
            i <= src@.len(),
            out@ == old(out)@ + src@.subrange(0, i as int),
        decreases src@.len() - i,
    {
        out.push(src[i]);
        i = i + 1;
        proof {
            assert(out@ =~= old(out)@ + src@.subrange(0, i as int));
        }
    }
    proof {
        assert(src@.subrange(0, src@.len() as int) =~= src@);
    }
}

/// Builds the entropy material of `env_entropy` as a byte vector.
pub fn build_env_entropy(env: &EnvInfo, extra: &[u8]) -> (r: Vec<u8>)
    ensures
        r@ == env_entropy(*env, extra@),
{
    let mut r: Vec<u8> = Vec::new();
    push_u64_be_bytes(&mut r, env.block_height);
    push_u64_be_bytes(&mut r, env.block_time);
    push_bytes(&mut r, env.sender.as_str().as_bytes());
    push_bytes(&mut r, extra);
    proof {
        assert(r@ =~= env_entropy(*env, extra@));
    }
    r
}

} // verus!
