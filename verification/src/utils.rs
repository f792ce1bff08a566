//! Byte-wise helpers: exclusive or, fresh random bytes, wiping.

use rand::RngCore;
use vstd::prelude::*;
use zeroize::Zeroize;

verus! {

/// The byte-wise exclusive or of the first `size` bytes of `a` and `b`.
pub open spec fn xor_seq(a: Seq<u8>, b: Seq<u8>, size: nat) -> Seq<u8> {
    Seq::new(size, |i: int| a[i] ^ b[i])
}

/// Applying the same mask twice gives the input back.
pub proof fn lemma_xor_twice(data: Seq<u8>, mask: Seq<u8>, size: nat)
    requires
        data.len() == size,
    ensures
        xor_seq(xor_seq(data, mask, size), mask, size) == data,
        xor_seq(mask, xor_seq(mask, data, size), size) == data,
{
    assert forall|i: int| 0 <= i < size implies (#[trigger] data[i] ^ mask[i]) ^ mask[i]
        == data[i] && mask[i] ^ (mask[i] ^ data[i]) == data[i] by {
        let d: u8 = data[i];
        let m: u8 = mask[i];
        assert((d ^ m) ^ m == d && m ^ (m ^ d) == d) by (bit_vector);
    }
    assert(xor_seq(xor_seq(data, mask, size), mask, size) =~= data);
    assert(xor_seq(mask, xor_seq(mask, data, size), size) =~= data);
}

/// Returns the exclusive or of the first `size` bytes of `a` and `b`.
pub fn xor(a: &[u8], b: &[u8], size: usize) -> (out: Vec<u8>)
    requires
        size <= a@.len(),
        size <= b@.len(),
    ensures
        out@ == xor_seq(a@, b@, size as nat),
{
    let mut out: Vec<u8> = Vec::with_capacity(size);
    let mut i: usize = 0;
    while i < size
        invariant
            i <= size,
            size <= a@.len(),
            size <= b@.len(),
            out@ == xor_seq(a@, b@, i as nat),
        decreases size - i,
    {
        out.push(a[i] ^ b[i]);
        i = i + 1;
    }
    out
}

/// Draws `size` bytes from the thread-local generator of the `rand` crate,
/// which is seeded by the operating system.  Trusted: `fill_bytes` fills the
/// whole buffer, so the result has `size` bytes; nothing is said of their
/// values.
#[verifier::external_body]
pub(crate) fn random_vec(size: usize) -> (out: Vec<u8>)
    ensures
        out@.len() == size,
{
    let mut out = vec![0u8; size];
    rand::thread_rng().fill_bytes(&mut out);
    out
}

/// Overwrites the bytes of `buffer` with zeroes through `Zeroize::zeroize` of
/// the `zeroize` crate.  Trusted: for a vector that call also clears it, so
/// the buffer is empty afterwards.
#[verifier::external_body]
pub(crate) fn wipe(buffer: &mut Vec<u8>)
    ensures
        final(buffer)@.len() == 0,
    opens_invariants none
    no_unwind
{
    buffer.zeroize();
}

} // verus!
