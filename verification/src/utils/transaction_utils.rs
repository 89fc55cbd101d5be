//! Addresses, and the messages that the inputs of a transaction sign.

use crate::constants::{NETWORK_VERSION_TEMP, NETWORK_VERSION_V0, P2SH_PREPEND};
use crate::crypto::sha256::sha256_of;
use crate::crypto::sha3_256::sha3_256_of;
use crate::crypto::sign_ed25519::PublicKey;
use crate::crypto::{sha256, sha3_256};
use crate::primitives::asset::{Asset, AssetView};
use crate::primitives::transaction::{OutPoint, OutPointView, TxConstructor, TxIn, TxInView};
use crate::script::lang::{encode_script, pay2pkh_script, Script};
use crate::script::Value;
use crate::utils::hex_codec::{hex_encode, hex_text, lemma_hex_text_is_ascii, lemma_hex_text_prefix};
use crate::utils::text::{decimal_string, decimal_text};
use vstd::prelude::*;
use vstd::slice::slice_subrange;
use vstd::utf8::encode_utf8;

verus! {

/// The address of a public key under the current scheme: the hexadecimal
/// text of its SHA3-256 digest.
pub open spec fn address_of(key: Seq<u8>) -> Seq<char> {
    hex_text(sha3_256_of(key))
}

/// The address of a public key under the first scheme: the first 32
/// characters of its current address.
pub open spec fn address_v0_of(key: Seq<u8>) -> Seq<char> {
    address_of(key).subrange(0, 32)
}

/// The address of a public key under the interim scheme: the hexadecimal
/// text of its SHA-256 digest.
pub open spec fn address_temp_of(key: Seq<u8>) -> Seq<char> {
    hex_text(sha256_of(key))
}

/// The address of a public key under the scheme that `version` selects.
pub open spec fn address_for(key: Seq<u8>, version: Option<u64>) -> Seq<char> {
    if version == Some(NETWORK_VERSION_V0) {
        address_v0_of(key)
    } else if version == Some(NETWORK_VERSION_TEMP) {
        address_temp_of(key)
    } else {
        address_of(key)
    }
}

/// Every address of a key has 32 or 64 characters, each of one byte.
pub proof fn lemma_address_length(key: Seq<u8>, version: Option<u64>)
    ensures
        address_for(key, version).len() == 32 || address_for(key, version).len() == 64,
        encode_utf8(address_for(key, version)).len() == address_for(key, version).len(),
{
    lemma_hex_text_is_ascii(sha3_256_of(key));
    lemma_hex_text_is_ascii(sha256_of(key));
    let whole = address_of(key);
    let part = address_v0_of(key);
    assert(vstd::utf8::is_ascii_chars(part)) by {
        assert forall|i: int| 0 <= i < part.len() implies '\0' <= #[trigger] part[i] <= '\u{7f}' by {
            assert(part[i] == whole[i]);
        }
    }
    vstd::utf8::is_ascii_chars_encode_utf8(part);
    vstd::utf8::is_ascii_chars_encode_utf8(whole);
    vstd::utf8::is_ascii_chars_encode_utf8(address_temp_of(key));
}

/// Builds the address of `pub_key` under the current scheme.
pub fn construct_address(pub_key: &PublicKey) -> (address: String)
    ensures
        address@ == address_of(pub_key@),
        address@.len() == 64,
{
    let hash = sha3_256::digest(pub_key.as_ref());
    hex_encode(hash.as_slice())
}

/// Builds the address of `pub_key` under the first scheme.
pub fn construct_address_v0(pub_key: &PublicKey) -> (address: String)
    ensures
        address@ == address_v0_of(pub_key@),
        address@.len() == 32,
{
    let hash = sha3_256::digest(pub_key.as_ref());
    proof {
        lemma_hex_text_prefix(hash@, 16);
    }
    hex_encode(slice_subrange(hash.as_slice(), 0, 16))
}

/// Builds the address of `pub_key` under the interim scheme.
pub fn construct_address_temp(pub_key: &PublicKey) -> (address: String)
    ensures
        address@ == address_temp_of(pub_key@),
        address@.len() == 64,
{
    let hash = sha256::digest(pub_key.as_ref());
    hex_encode(hash.as_slice())
}

/// Builds the address of `pub_key` under the scheme that `address_version`
/// selects; any version but the two old ones selects the current scheme.
pub fn construct_address_for(pub_key: &PublicKey, address_version: Option<u64>) -> (address:
    String)
    ensures
        address@ == address_for(pub_key@, address_version),
        address@.len() == 32 || address@.len() == 64,
{
    match address_version {
        Some(v) => {
            if v == NETWORK_VERSION_V0 {
                construct_address_v0(pub_key)
            } else if v == NETWORK_VERSION_TEMP {
                construct_address_temp(pub_key)
            } else {
                construct_address(pub_key)
            }
        },
        None => construct_address(pub_key),
    }
}

/// The text that the input that spends `out_point` signs: the hexadecimal
/// text of the SHA3-256 digest of the text of the place.
pub open spec fn signable_hash(out_point: OutPointView) -> Seq<char> {
    hex_text(sha3_256_of(encode_utf8(out_point.text())))
}

/// Builds the text that the input that spends `previous_out` signs.
pub fn construct_tx_in_signable_hash(previous_out: &OutPoint) -> (hash: String)
    ensures
        hash@ == signable_hash(previous_out@),
        hash@.len() == 64,
{
    let text = previous_out.to_string();
    let digest = sha3_256::digest(text.as_str().as_bytes());
    hex_encode(digest.as_slice())
}

/// The text that stands for an asset where its creation is signed: the kind
/// of the asset and its amount.
pub open spec fn asset_text(asset: AssetView) -> Seq<char> {
    match asset {
        AssetView::Token(amount) => "Token:"@ + decimal_text(amount as int),
        AssetView::Item(item) => "Item:"@ + decimal_text(item.amount as int),
    }
}

/// The text that the input that creates `asset` signs: the hexadecimal text
/// of the SHA3-256 digest of the text of the asset.
pub open spec fn signable_asset_hash(asset: AssetView) -> Seq<char> {
    hex_text(sha3_256_of(encode_utf8(asset_text(asset))))
}

/// Builds the text that the input that creates `asset` signs.
pub fn construct_tx_in_signable_asset_hash(asset: &Asset) -> (hash: String)
    ensures
        hash@ == signable_asset_hash(asset@),
        hash@.len() == 64,
{
    let mut text: String = match asset {
        Asset::Token(_) => "Token:".to_owned(),
        Asset::Item(_) => "Item:".to_owned(),
    };
    let amount: u64 = match asset {
        Asset::Token(amount) => amount.0,
        Asset::Item(item) => item.amount,
    };
    text.append(decimal_string(amount as i128).as_str());
    let digest = sha3_256::digest(text.as_str().as_bytes());
    hex_encode(digest.as_slice())
}

/// The address of a script: the prefix of such addresses, then the first 63
/// characters of the hexadecimal text of the SHA3-256 digest of the bytes
/// that stand for the script.
pub open spec fn p2sh_address(script: Seq<Value>) -> Seq<char> {
    seq![P2SH_PREPEND as char] + hex_text(sha3_256_of(encode_script(script))).subrange(0, 63)
}

/// Builds the address of `script`.
pub fn construct_p2sh_address(script: &Script) -> (address: String)
    ensures
        address@ == p2sh_address(script@),
        address@.len() == 64,
{
    let bytes = script.encode();
    let digest = sha3_256::digest(bytes.as_slice());
    let digits = hex_encode(digest.as_slice());
    proof {
        lemma_hex_text_is_ascii(digest@);
    }
    let mut address: String = "H".to_owned();
    proof {
        reveal_strlit("H");
        assert("H"@ =~= seq![P2SH_PREPEND as char]);
    }
    address.append(digits.as_str().substring_ascii(0, 63));
    address
}

/// The input that spends the output that `entry` names, unlocked by the
/// first signature and the first key that `entry` holds.
pub open spec fn payment_tx_in(entry: TxConstructor) -> TxInView {
    TxInView {
        previous_out: Some(entry.previous_out@),
        script_signature: pay2pkh_script(
            signable_hash(entry.previous_out@),
            entry.signatures@[0]@,
            entry.pub_keys@[0]@,
            entry.address_version,
        ),
    }
}

/// Builds one input for each of `tx_values`, each spending its output by a
/// signature under the address of a key. Every entry has to bring a
/// signature and a key.
pub fn construct_payment_tx_ins(tx_values: Vec<TxConstructor>) -> (tx_ins: Vec<TxIn>)
    requires
        forall|i: int|
            0 <= i < tx_values@.len() ==> (#[trigger] tx_values@[i]).signatures@.len() > 0
                && tx_values@[i].pub_keys@.len() > 0,
    ensures
        tx_ins@.len() == tx_values@.len(),
        forall|i: int|
            0 <= i < tx_values@.len() ==> (#[trigger] tx_ins@[i])@ == payment_tx_in(tx_values@[i]),
{
    let mut tx_ins: Vec<TxIn> = Vec::new();
    let mut i: usize = 0;
    while i < tx_values.len()
        invariant
            i <= tx_values@.len(),
            tx_ins@.len() == i,
            forall|k: int|
                0 <= k < tx_values@.len() ==> (#[trigger] tx_values@[k]).signatures@.len() > 0
                    && tx_values@[k].pub_keys@.len() > 0,
            forall|k: int| 0 <= k < i ==> (#[trigger] tx_ins@[k])@ == payment_tx_in(tx_values@[k]),
        decreases tx_values@.len() - i,
    {
        let entry = &tx_values[i];
        let signable = construct_tx_in_signable_hash(&entry.previous_out);
        let script_signature = Script::pay2pkh(
            signable,
            entry.signatures[0],
            entry.pub_keys[0],
            entry.address_version,
        );
        tx_ins.push(TxIn { previous_out: Some(entry.previous_out.clone()), script_signature });
        i += 1;
    }
    tx_ins
}

} // verus!
