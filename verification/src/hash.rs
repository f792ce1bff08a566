//! The hash that masks a secret.

use crypto::hashes::blake2b::Blake2b256;
use crypto::hashes::Digest;
use vstd::prelude::*;

verus! {

/// The length of a digest in bytes.
pub const DIGEST_SIZE: usize = 32;

/// The BLAKE2b digest of `data` with an output of 256 bits.  The function is
/// not defined here: it stands for what the hash implementation computes.
pub uninterp spec fn blake2b_256(data: Seq<u8>) -> Seq<u8>;

/// Hashes `data` with `Blake2b256::digest` of the `crypto` crate.  Trusted:
/// the result is the BLAKE2b-256 digest of `data`, which is a function of
/// `data` alone, and it is 32 bytes long, the output size that the hasher's
/// type fixes.
#[verifier::external_body]
pub(crate) fn digest(data: &[u8]) -> (out: Vec<u8>)
    ensures
        out@ == blake2b_256(data@),
        out@.len() == DIGEST_SIZE,
{
    Blake2b256::digest(data).to_vec()
}

} // verus!
