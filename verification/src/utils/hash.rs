//! The hash that ties an item to the transaction that it belongs to.

use crate::crypto::sha256;
use crate::crypto::sha256::sha256_of;
use crate::utils::hex_codec::{hex_encode, hex_text};
use vstd::prelude::*;
use vstd::utf8::encode_utf8;

verus! {

/// The hash of a text: the hexadecimal text of the SHA-256 digest of its
/// bytes.
pub open spec fn hash_of(data: Seq<char>) -> Seq<char> {
    hex_text(sha256_of(encode_utf8(data)))
}

/// Computes the hash of `data`.
pub fn calculate_hash(data: &str) -> (hash: String)
    ensures
        hash@ == hash_of(data@),
        hash@.len() == 64,
{
    let digest = sha256::digest(data.as_bytes());
    hex_encode(digest.as_slice())
}

} // verus!
