//! The hash under which a proposal's call is stored.
use vstd::prelude::*;

verus! {

/// The 256-bit BLAKE2b digest of `data`.
pub uninterp spec fn blake2_256_of(data: Seq<u8>) -> [u8; 32];

/// `sp_crypto_hashing::blake2_256`, the hash of `BlakeTwo256`: the result
/// depends on the bytes alone and is named `blake2_256_of`; the digest
/// itself is not restated here.
#[verifier::external_body]
pub fn blake2_256(data: &[u8]) -> (h: [u8; 32])
    ensures
        h == blake2_256_of(data@),
{
    sp_crypto_hashing::blake2_256(data)
}

} // verus!
