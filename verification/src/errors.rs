//! Why a transaction record is refused.

use vstd::prelude::*;

verus! {

/// Why a transaction record is not valid.
#[derive(Debug, PartialEq, Eq)]
pub enum ValidationError {
    /// The record carries no signature.
    InvalidSignature,
    /// The genesis hash of the record is not the one expected.
    InvalidGenesisHash { expected: String, found: String },
    /// The record is of an item and carries no metadata.
    MissingMetadata,
}

} // verus!
