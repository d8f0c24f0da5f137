//! A fixed 256-bit content hash, for collaborators that derive preimage keys from content.

use vstd::prelude::*;

verus! {

/// The SHA3-256 digest of `data`.
pub uninterp spec fn sha3_256_digest(data: Seq<u8>) -> Seq<u8>;

/// Relies on `sha3::Sha3_256` through `digest::Digest::digest`: the digest of the bytes,
/// which depends on nothing else.
#[verifier::external_body]
fn sha3_256_of(data: &[u8]) -> (r: [u8; 32])
    ensures
        r@ == sha3_256_digest(data@),
{
    <sha3::Sha3_256 as sha3::Digest>::digest(data).into()
}

/// Hashes `data` with SHA3-256 into a 32-byte digest.
pub fn sha3_256(data: &[u8]) -> (r: [u8; 32])
    ensures
        r@ == sha3_256_digest(data@),
{
    sha3_256_of(data)
}

} // verus!
