//! The validator of transaction records.

use crate::errors::ValidationError;
use crate::models::record::{Metadata, Transaction};
use crate::models::transaction::AssetType;
use crate::utils::hash::{calculate_hash, hash_of};
use crate::utils::text::same_text;
use vstd::prelude::*;

verus! {

/// The validator of transaction records.
pub struct TransactionValidator;

/// Whether a record carries a signature.
pub open spec fn is_signed(transaction: Transaction) -> bool {
    transaction.signature@.len() > 0
}

/// Whether a record of an item names the genesis hash that belongs to it:
/// the hash of the hash of the record.
pub open spec fn has_own_genesis_hash(transaction: Transaction) -> bool {
    transaction.metadata is Some && transaction.metadata->0.genesis_hash@ == hash_of(
        transaction.id@,
    )
}

impl TransactionValidator {
    /// Checks a record: it has to carry a signature, and the record of an
    /// item has to carry metadata with the genesis hash that belongs to it.
    pub fn validate(transaction: &Transaction) -> (result: Result<(), ValidationError>)
        ensures
            match result {
                Ok(_) => is_signed(*transaction) && (transaction.asset_type is Item
                    ==> has_own_genesis_hash(*transaction)),
                Err(ValidationError::InvalidSignature) => !is_signed(*transaction),
                Err(ValidationError::MissingMetadata) => is_signed(*transaction)
                    && transaction.asset_type is Item && transaction.metadata is None,
                Err(ValidationError::InvalidGenesisHash { expected, found }) => {
                    &&& is_signed(*transaction)
                    &&& transaction.asset_type is Item
                    &&& transaction.metadata is Some
                    &&& !has_own_genesis_hash(*transaction)
                    &&& expected@ == hash_of(transaction.id@)
                    &&& found@ == transaction.metadata->0.genesis_hash@
                },
            },
    {
        match Self::validate_basic(transaction) {
            Ok(_) => {},
            Err(e) => {
                return Err(e);
            },
        }
        match transaction.asset_type {
            AssetType::Item => Self::validate_item_genesis_hash(transaction),
            _ => Ok(()),
        }
    }

    /// Checks that a record carries a signature.
    pub fn validate_basic(transaction: &Transaction) -> (result: Result<(), ValidationError>)
        ensures
            result is Ok <==> is_signed(*transaction),
            result is Err ==> result->Err_0 == ValidationError::InvalidSignature,
    {
        if transaction.signature.as_str().is_empty() {
            return Err(ValidationError::InvalidSignature);
        }
        Ok(())
    }

    /// Checks that a record carries metadata with the genesis hash that
    /// belongs to it.
    pub fn validate_item_genesis_hash(transaction: &Transaction) -> (result: Result<
        (),
        ValidationError,
    >)
        ensures
            match result {
                Ok(_) => has_own_genesis_hash(*transaction),
                Err(ValidationError::MissingMetadata) => transaction.metadata is None,
                Err(ValidationError::InvalidGenesisHash { expected, found }) => {
                    &&& transaction.metadata is Some
                    &&& !has_own_genesis_hash(*transaction)
                    &&& expected@ == hash_of(transaction.id@)
                    &&& found@ == transaction.metadata->0.genesis_hash@
                },
                Err(_) => false,
            },
    {
        match &transaction.metadata {
            Some(metadata) => {
                let expected_genesis_hash = calculate_hash(transaction.id.as_str());
                if !same_text(metadata.genesis_hash.as_str(), expected_genesis_hash.as_str()) {
                    return Err(
                        ValidationError::InvalidGenesisHash {
                            expected: expected_genesis_hash,
                            found: metadata.genesis_hash.clone(),
                        },
                    );
                }
            },
            None => {
                return Err(ValidationError::MissingMetadata);
            },
        }
        Ok(())
    }

    /// Gives the record of an item the genesis hash that belongs to it.
    /// Fails, and changes nothing, where such a record carries no metadata;
    /// a record of anything else is left as it is.
    pub fn update_metadata(transaction: &mut Transaction) -> (result: Result<(), ValidationError>)
        ensures
            final(transaction).id == old(transaction).id,
            final(transaction).asset_type == old(transaction).asset_type,
            final(transaction).signature == old(transaction).signature,
            match result {
                Ok(_) => if old(transaction).asset_type is Item {
                    old(transaction).metadata is Some && has_own_genesis_hash(*final(transaction))
                } else {
                    final(transaction).metadata == old(transaction).metadata
                },
                Err(e) => {
                    &&& e == ValidationError::MissingMetadata
                    &&& old(transaction).asset_type is Item
                    &&& old(transaction).metadata is None
                    &&& final(transaction).metadata is None
                },
            },
    {
        match transaction.asset_type {
            AssetType::Item => {
                if transaction.metadata.is_none() {
                    return Err(ValidationError::MissingMetadata);
                }
                let new_genesis_hash = calculate_hash(transaction.id.as_str());
                transaction.metadata = Some(Metadata { genesis_hash: new_genesis_hash });
            },
            _ => {},
        }
        Ok(())
    }
}

} // verus!
