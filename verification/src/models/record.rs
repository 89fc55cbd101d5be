//! The record of a signed transaction, as the validator of records reads
//! it.

use crate::models::transaction::AssetType;
use vstd::prelude::*;

verus! {

/// The metadata of a record: the genesis hash of its asset.
#[derive(Debug, Clone, PartialEq, Eq)]
pub struct Metadata {
    pub genesis_hash: String,
}

/// The record of a signed transaction.
#[derive(Debug, Clone, PartialEq, Eq)]
pub struct Transaction {
    pub id: String,
    pub asset_type: AssetType,
    pub metadata: Option<Metadata>,
    pub signature: String,
}

} // verus!
