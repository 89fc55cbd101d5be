//! SHA-256 digests.

use vstd::prelude::*;

verus! {

/// The SHA-256 digest of `data`.
pub uninterp spec fn sha256_digest(data: Seq<u8>) -> [u8; 32];

/// The SHA-256 digest of `data`, as the sequence of its 32 bytes.
pub open spec fn sha256_of(data: Seq<u8>) -> Seq<u8> {
    sha256_digest(data)@
}

/// Computes the digest by `sha2::Sha256::digest`. The contract claims only
/// that the 32 bytes returned are a function of the bytes given, named
/// `sha256_digest`.
#[verifier::external_body]
fn sha256_raw(data: &[u8]) -> (out: [u8; 32])
    ensures
        out == sha256_digest(data@),
{
    <sha2::Sha256 as sha2::Digest>::digest(data).into()
}

/// The SHA-256 digest of `data`.
pub fn digest(data: &[u8]) -> (hash: [u8; 32])
    ensures
        hash@ == sha256_of(data@),
        hash@.len() == 32,
{
    sha256_raw(data)
}

} // verus!
