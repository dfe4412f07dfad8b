//! BLAKE2b digests, computed by `rust-crypto`.
use vstd::prelude::*;

use crypto::digest::Digest;

verus! {

/// The 32-byte BLAKE2b digest of `data`.
pub uninterp spec fn blake2b_256(data: Seq<u8>) -> Seq<u8>;

/// `Blake2b::new(32)` fed `a`, `b` and `c` in turn with `input`, then `result`: the digest
/// of the three parts one after the other (`input` appends to what the hasher has taken in).
#[verifier::external_body]
pub fn blake2b_256_of_parts(a: &[u8], b: &[u8], c: &[u8]) -> (res: [u8; 32])
    ensures
        res@ == blake2b_256(a@ + b@ + c@),
{
    let mut out = [0u8; 32];
    let mut hasher = crypto::blake2b::Blake2b::new(32);
    hasher.input(a);
    hasher.input(b);
    hasher.input(c);
    hasher.result(&mut out);
    out
}

} // verus!
