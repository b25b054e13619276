//! The cryptographic digest that commitments are built on.

use vstd::prelude::*;

verus! {

/// Length in bytes of a digest.
pub const DIGEST_LEN: usize = 32;

/// The SHA-256 digest of `data`, as the host environment computes it.
pub uninterp spec fn sha256(data: Seq<u8>) -> Seq<u8>;

/// Calls `soroban_sdk::crypto::Crypto::sha256` on a fresh host environment
/// whose budget is lifted first, so that hashing is never cut short.
///
/// Trusted: the result is the SHA-256 digest of exactly the bytes passed in,
/// and it is 32 bytes long (the call returns a `Hash<32>`). The input must fit
/// a host byte object, whose length is a `u32`.
#[verifier::external_body]
pub(crate) fn sha256_digest(data: &Vec<u8>) -> (out: Vec<u8>)
    requires
        data@.len() <= u32::MAX,
    ensures
        out@ == sha256(data@),
        out@.len() == DIGEST_LEN,
{
    let env = soroban_sdk::Env::default();
    env.cost_estimate().budget().reset_unlimited();
    let bytes = soroban_sdk::Bytes::from_slice(&env, data.as_slice());
    env.crypto().sha256(&bytes).to_array().to_vec()
}

} // verus!
