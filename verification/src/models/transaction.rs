//! The record of a transaction that carries metadata, and the rule that
//! ties the genesis hash of an item to the record that it came from.

use crate::crypto::sha256;
use crate::crypto::sha256::sha256_of;
use crate::primitives::asset::{copy_text, text_of};
use crate::utils::hex_codec::{hex_encode, hex_text};
use crate::utils::text::same_text;
use vstd::prelude::*;
use vstd::utf8::encode_utf8;

verus! {

/// The kinds of asset that a record can be about.
#[derive(Debug, Clone, Copy, PartialEq, Eq, Structural)]
pub enum AssetType {
    Item,
    Currency,
}

/// The record of a transaction.
#[derive(Debug, PartialEq, Eq)]
pub struct Transaction {
    /// The hash of the record.
    pub id: String,
    pub genesis_hash: String,
    pub asset_type: AssetType,
    pub metadata: Option<String>,
}

/// Why a record is not valid.
#[derive(Debug, Clone, Copy, PartialEq, Eq, Structural)]
pub enum TransactionError {
    /// The genesis hash is not the one that the rule asks for.
    InvalidGenesisHash,
    /// The asset is no item.
    InvalidAssetType,
}

/// What a `Transaction` holds.
pub struct TransactionView {
    pub id: Seq<char>,
    pub genesis_hash: Seq<char>,
    pub asset_type: AssetType,
    pub metadata: Option<Seq<char>>,
}

impl View for Transaction {
    type V = TransactionView;

    open spec fn view(&self) -> TransactionView {
        TransactionView {
            id: self.id@,
            genesis_hash: self.genesis_hash@,
            asset_type: self.asset_type,
            metadata: text_of(self.metadata),
        }
    }
}

impl Clone for Transaction {
    fn clone(&self) -> (copy: Self)
        ensures
            copy == *self,
    {
        Transaction {
            id: self.id.clone(),
            genesis_hash: self.genesis_hash.clone(),
            asset_type: self.asset_type,
            metadata: copy_text(&self.metadata),
        }
    }
}

/// The JSON text of a string: the string between quotes, with the
/// characters that JSON does not take as they are escaped.
pub uninterp spec fn json_string(text: Seq<char>) -> Seq<char>;

/// Writes a string as JSON, by `serde_json::to_string`, which cannot fail
/// on a string. The contract claims only that the result is a function of
/// the characters given, named `json_string`.
#[verifier::external_body]
fn json_quote(text: &str) -> (quoted: String)
    ensures
        quoted@ == json_string(text@),
{
    match serde_json::to_string(text) {
        Ok(quoted) => quoted,
        Err(_) => String::new(),
    }
}

impl TransactionView {
    /// The record after new metadata was put into it: the record of an
    /// item then has the hash of the record as its genesis hash.
    pub open spec fn with_metadata(self, metadata: Seq<char>) -> TransactionView {
        TransactionView {
            genesis_hash: if self.asset_type is Item {
                self.id
            } else {
                self.genesis_hash
            },
            metadata: Some(metadata),
            ..self
        }
    }

    /// Whether the record keeps the rule on genesis hashes, where `input`
    /// is the record that it spends, if it spends one: the genesis hash of
    /// an item is the hash of the record that it spends, or its own hash
    /// where it spends none.
    pub open spec fn keeps_genesis_rule(self, input: Option<TransactionView>) -> bool {
        self.asset_type is Item ==> self.genesis_hash == match input {
            Some(input_tx) => input_tx.id,
            None => self.id,
        }
    }

    /// The JSON text of the record: an object of its four fields in their
    /// order, without spaces.
    pub open spec fn json_text(self) -> Seq<char> {
        "{\"id\":"@ + json_string(self.id) + ",\"genesis_hash\":"@ + json_string(self.genesis_hash)
            + ",\"asset_type\":"@ + match self.asset_type {
            AssetType::Item => "\"Item\""@,
            AssetType::Currency => "\"Currency\""@,
        } + ",\"metadata\":"@ + match self.metadata {
            Some(metadata) => json_string(metadata),
            None => "null"@,
        } + "}"@
    }

    /// The hash of the record: the hexadecimal text of the SHA-256 digest
    /// of its JSON text.
    pub open spec fn hash(self) -> Seq<char> {
        hex_text(sha256_of(encode_utf8(self.json_text())))
    }
}

impl Transaction {
    /// The record with the fields given.
    pub fn new(
        id: String,
        genesis_hash: String,
        asset_type: AssetType,
        metadata: Option<String>,
    ) -> (tx: Self)
        ensures
            tx == (Transaction { id, genesis_hash, asset_type, metadata }),
    {
        Transaction { id, genesis_hash, asset_type, metadata }
    }

    /// Puts new metadata into the record. The record of an item then gets
    /// its own hash as its genesis hash.
    pub fn update_metadata(&mut self, new_metadata: String)
        ensures
            final(self)@ == old(self)@.with_metadata(new_metadata@),
    {
        match self.asset_type {
            AssetType::Item => {
                self.genesis_hash = self.id.clone();
            },
            _ => {},
        }
        self.metadata = Some(new_metadata);
    }

    /// Checks the rule on genesis hashes, where `input_transaction` is the
    /// record that this one spends, if it spends one.
    pub fn validate(&self, input_transaction: Option<&Transaction>) -> (result: Result<
        (),
        TransactionError,
    >)
        ensures
            result is Ok <==> self@.keeps_genesis_rule(
                match input_transaction {
                    Some(input_tx) => Some(input_tx@),
                    None => None,
                },
            ),
            result is Err ==> result->Err_0 == TransactionError::InvalidGenesisHash,
    {
        match self.asset_type {
            AssetType::Item => {
                let expected: &str = match input_transaction {
                    Some(input_tx) => input_tx.id.as_str(),
                    None => self.id.as_str(),
                };
                if !same_text(self.genesis_hash.as_str(), expected) {
                    return Err(TransactionError::InvalidGenesisHash);
                }
            },
            _ => {},
        }
        Ok(())
    }

    /// The hash of the record.
    pub fn compute_hash(&self) -> (hash: String)
        ensures
            hash@ == self@.hash(),
    {
        let mut text: String = "{\"id\":".to_owned();
        text.append(json_quote(self.id.as_str()).as_str());
        text.append(",\"genesis_hash\":");
        text.append(json_quote(self.genesis_hash.as_str()).as_str());
        text.append(",\"asset_type\":");
        match self.asset_type {
            AssetType::Item => {
                text.append("\"Item\"");
            },
            AssetType::Currency => {
                text.append("\"Currency\"");
            },
        }
        text.append(",\"metadata\":");
        match &self.metadata {
            Some(metadata) => {
                text.append(json_quote(metadata.as_str()).as_str());
            },
            None => {
                text.append("null");
            },
        }
        text.append("}");
        let digest = sha256::digest(text.as_str().as_bytes());
        hex_encode(digest.as_slice())
    }

    /// The record that updates the metadata of `original_tx`: a copy with
    /// the new metadata, and with the hash of that copy as its hash.
    pub fn create_metadata_update(original_tx: &Transaction, new_metadata: String) -> (tx: Self)
        ensures
            tx@ == (TransactionView {
                id: original_tx@.with_metadata(new_metadata@).hash(),
                ..original_tx@.with_metadata(new_metadata@)
            }),
    {
        let mut updated_tx = original_tx.clone();
        updated_tx.update_metadata(new_metadata);
        updated_tx.id = updated_tx.compute_hash();
        updated_tx
    }
}

/// The update of a record of an item is valid as a spend of that record.
pub proof fn lemma_metadata_update_is_valid(original: TransactionView, metadata: Seq<char>)
    requires
        original.asset_type is Item,
    ensures
        (TransactionView {
            id: original.with_metadata(metadata).hash(),
            ..original.with_metadata(metadata)
        }).keeps_genesis_rule(Some(original)),
{
}

} // verus!
