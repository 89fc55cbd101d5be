//! SHA3-256 digests.

use vstd::prelude::*;

verus! {

/// A SHA3-256 digest.
pub type Hash = [u8; 32];

/// The SHA3-256 digest of `data`.
pub uninterp spec fn sha3_256_digest(data: Seq<u8>) -> [u8; 32];

/// The SHA3-256 digest of `data`, as the sequence of its 32 bytes.
pub open spec fn sha3_256_of(data: Seq<u8>) -> Seq<u8> {
    sha3_256_digest(data)@
}

/// Computes the digest by `sha3::Sha3_256::digest`. The contract claims only
/// that the 32 bytes returned are a function of the bytes given, named
/// `sha3_256_digest`.
#[verifier::external_body]
fn sha3_256_raw(data: &[u8]) -> (out: [u8; 32])
    ensures
        out == sha3_256_digest(data@),
{
    <sha3::Sha3_256 as sha3::Digest>::digest(data).into()
}

/// The SHA3-256 digest of `data`.
pub fn digest(data: &[u8]) -> (hash: Hash)
    ensures
        hash@ == sha3_256_of(data@),
        hash@.len() == 32,
{
    sha3_256_raw(data)
}

} // verus!
