//! The interpreter and the validation of transactions, with real keys and
//! signatures.

use ed25519_dalek::{Signer, SigningKey};
use std::collections::BTreeMap;
use txscript::constants::{MAX_METADATA_BYTES, NETWORK_VERSION_TEMP, NETWORK_VERSION_V0};
use txscript::crypto::sign_ed25519::{PublicKey, Signature};
use txscript::primitives::asset::{Asset, ItemAsset, TokenAmount};
use txscript::primitives::transaction::{OutPoint, Transaction, TxConstructor, TxIn, TxOut};
use txscript::script::lang::Script;
use txscript::script::{OpCodes, StackEntry};
use txscript::utils::script_utils::{
    address_has_valid_length, interpret_script, tx_has_valid_create_script,
    tx_has_valid_p2pkh_sig, tx_is_valid,
};
use txscript::utils::transaction_utils::{
    construct_address, construct_address_for, construct_payment_tx_ins,
    construct_tx_in_signable_asset_hash, construct_tx_in_signable_hash,
};

/// The key pair that belongs to a seed.
fn gen_keypair(seed: u8) -> (PublicKey, SigningKey) {
    let sk = SigningKey::from_bytes(&[seed; 32]);
    let pk = PublicKey::from_slice(sk.verifying_key().as_bytes()).unwrap();
    (pk, sk)
}

/// The signature of `msg` under `sk`.
fn sign_detached(msg: &[u8], sk: &SigningKey) -> Signature {
    Signature::from_slice(&sk.sign(msg).to_bytes()).unwrap()
}

#[test]
fn test_interpret_script() {
    // empty script
    let script = Script::new();
    assert!(interpret_script(&script));
    // OP_0
    let mut script = Script::new();
    script.stack.push(StackEntry::Op(OpCodes::OP_0));
    assert!(!interpret_script(&script));
    // OP_1
    let mut script = Script::new();
    script.stack.push(StackEntry::Op(OpCodes::OP_1));
    assert!(interpret_script(&script));
    // OP_1 OP_2 OP_ADD OP_3 OP_EQUAL
    let mut script = Script::new();
    script.stack.push(StackEntry::Op(OpCodes::OP_1));
    script.stack.push(StackEntry::Op(OpCodes::OP_2));
    script.stack.push(StackEntry::Op(OpCodes::OP_ADD));
    script.stack.push(StackEntry::Op(OpCodes::OP_3));
    script.stack.push(StackEntry::Op(OpCodes::OP_EQUAL));
    assert!(interpret_script(&script));
}

/// Util function to create multisig TxIns
fn create_multisig_tx_ins(tx_values: Vec<TxConstructor>, m: usize) -> Vec<TxIn> {
    let mut tx_ins = Vec::new();

    for entry in tx_values {
        let mut new_tx_in = TxIn::new();
        new_tx_in.script_signature = Script::multisig_validation(
            m,
            entry.pub_keys.len(),
            entry.previous_out.t_hash.clone(),
            entry.signatures,
            entry.pub_keys,
        );
        new_tx_in.previous_out = Some(entry.previous_out);

        tx_ins.push(new_tx_in);
    }

    tx_ins
}

/// Util function to create multisig member TxIns
fn create_multisig_member_tx_ins(tx_values: Vec<TxConstructor>) -> Vec<TxIn> {
    let mut tx_ins = Vec::new();

    for entry in tx_values {
        let mut new_tx_in = TxIn::new();
        new_tx_in.script_signature = Script::member_multisig(
            entry.previous_out.t_hash.clone(),
            entry.pub_keys[0],
            entry.signatures[0],
        );
        new_tx_in.previous_out = Some(entry.previous_out);

        tx_ins.push(new_tx_in);
    }

    tx_ins
}

#[test]
/// Checks that a correct create script is validated as such
fn test_pass_create_script_valid() {
    let asset = Asset::item(1, None, None);
    let asset_hash = construct_tx_in_signable_asset_hash(&asset);
    let (pk, sk) = gen_keypair(1);
    let signature = sign_detached(asset_hash.as_bytes(), &sk);

    let script = Script::new_create_asset(0, asset_hash, signature, pk);
    assert!(tx_has_valid_create_script(&script, &asset));
}

#[test]
/// Checks that metadata is validated correctly if too large
fn test_fail_create_receipt_script_invalid() {
    let metadata = String::from_utf8_lossy(&[0; MAX_METADATA_BYTES + 1]).to_string();
    let asset = Asset::item(1, None, Some(metadata));
    let asset_hash = construct_tx_in_signable_asset_hash(&asset);
    let (pk, sk) = gen_keypair(1);
    let signature = sign_detached(asset_hash.as_bytes(), &sk);

    let script = Script::new_create_asset(0, asset_hash, signature, pk);
    assert!(!tx_has_valid_create_script(&script, &asset));
}

#[test]
/// Checks whether addresses are validated correctly
fn test_validate_addresses_correctly() {
    let (pk, _) = gen_keypair(1);
    let address = construct_address(&pk);

    assert!(address_has_valid_length(&address));
    assert!(address_has_valid_length(&hex::encode([0; 32])));
    assert!(!address_has_valid_length(&hex::encode([0; 64])));
}

#[test]
/// Checks that correct member multisig scripts are validated as such
fn test_pass_member_multisig_valid() {
    test_pass_member_multisig_valid_common(None);
}

#[test]
/// Checks that correct member multisig scripts are validated as such
fn test_pass_member_multisig_valid_v0() {
    test_pass_member_multisig_valid_common(Some(NETWORK_VERSION_V0));
}

#[test]
/// Checks that correct member multisig scripts are validated as such
fn test_pass_member_multisig_valid_temp() {
    test_pass_member_multisig_valid_common(Some(NETWORK_VERSION_TEMP));
}

fn test_pass_member_multisig_valid_common(address_version: Option<u64>) {
    let (pk, sk) = gen_keypair(1);
    let t_hash = hex::encode(vec![0, 0, 0]);
    let signature = sign_detached(t_hash.as_bytes(), &sk);

    let tx_const = TxConstructor {
        previous_out: OutPoint::new(t_hash, 0),
        signatures: vec![signature],
        pub_keys: vec![pk],
        address_version,
    };

    let tx_ins = create_multisig_member_tx_ins(vec![tx_const]);

    assert!(interpret_script(&tx_ins[0].clone().script_signature));
}

#[test]
/// Checks that incorrect member multisig scripts are validated as such
fn test_fail_member_multisig_invalid() {
    test_fail_member_multisig_invalid_common(None);
}

#[test]
/// Checks that incorrect member multisig scripts are validated as such
fn test_fail_member_multisig_invalid_v0() {
    test_fail_member_multisig_invalid_common(Some(NETWORK_VERSION_V0));
}

#[test]
/// Checks that incorrect member multisig scripts are validated as such
fn test_fail_member_multisig_invalid_temp() {
    test_fail_member_multisig_invalid_common(Some(NETWORK_VERSION_TEMP));
}

fn test_fail_member_multisig_invalid_common(address_version: Option<u64>) {
    let (_pk, sk) = gen_keypair(1);
    let (pk, _sk) = gen_keypair(2);
    let t_hash = hex::encode(vec![0, 0, 0]);
    let signature = sign_detached(t_hash.as_bytes(), &sk);

    let tx_const = TxConstructor {
        previous_out: OutPoint::new(t_hash, 0),
        signatures: vec![signature],
        pub_keys: vec![pk],
        address_version,
    };

    let tx_ins = create_multisig_member_tx_ins(vec![tx_const]);

    assert!(!interpret_script(&tx_ins[0].clone().script_signature));
}

#[test]
/// Checks that correct p2pkh transaction signatures are validated as such
fn test_pass_p2pkh_sig_valid() {
    test_pass_p2pkh_sig_valid_common(None);
}

#[test]
/// Checks that correct p2pkh transaction signatures are validated as such
fn test_pass_p2pkh_sig_valid_v0() {
    test_pass_p2pkh_sig_valid_common(Some(NETWORK_VERSION_V0));
}

#[test]
/// Checks that correct p2pkh transaction signatures are validated as such
fn test_pass_p2pkh_sig_valid_temp() {
    test_pass_p2pkh_sig_valid_common(Some(NETWORK_VERSION_TEMP));
}

fn test_pass_p2pkh_sig_valid_common(address_version: Option<u64>) {
    let (pk, sk) = gen_keypair(1);
    let outpoint = OutPoint {
        t_hash: hex::encode(vec![0, 0, 0]),
        n: 0,
    };

    let hash_to_sign = construct_tx_in_signable_hash(&outpoint);
    let signature = sign_detached(hash_to_sign.as_bytes(), &sk);

    let tx_const = TxConstructor {
        previous_out: outpoint,
        signatures: vec![signature],
        pub_keys: vec![pk],
        address_version,
    };

    let tx_ins = construct_payment_tx_ins(vec![tx_const]);
    let tx_out_pk = construct_address_for(&pk, address_version);

    assert!(tx_has_valid_p2pkh_sig(
        &tx_ins[0].script_signature,
        &hash_to_sign,
        &tx_out_pk
    ));
}

#[test]
/// Checks that invalid p2pkh transaction signatures are validated as such
fn test_fail_p2pkh_sig_invalid() {
    test_fail_p2pkh_sig_invalid_common(None);
}

#[test]
/// Checks that invalid p2pkh transaction signatures are validated as such
fn test_fail_p2pkh_sig_invalid_v0() {
    test_fail_p2pkh_sig_invalid_common(Some(NETWORK_VERSION_V0));
}

fn test_fail_p2pkh_sig_invalid_common(address_version: Option<u64>) {
    let (pk, sk) = gen_keypair(1);
    let (second_pk, _s) = gen_keypair(2);
    let outpoint = OutPoint {
        t_hash: hex::encode(vec![0, 0, 0]),
        n: 0,
    };

    let hash_to_sign = construct_tx_in_signable_hash(&outpoint);
    let signature = sign_detached(hash_to_sign.as_bytes(), &sk);

    let tx_const = TxConstructor {
        previous_out: outpoint,
        signatures: vec![signature],
        pub_keys: vec![second_pk],
        address_version,
    };

    let tx_ins = construct_payment_tx_ins(vec![tx_const]);
    let tx_out_pk = construct_address(&pk);

    assert!(!tx_has_valid_p2pkh_sig(
        &tx_ins[0].script_signature,
        &hash_to_sign,
        &tx_out_pk
    ));
}

#[test]
/// Checks that invalid p2pkh transaction signatures are validated as such
fn test_fail_p2pkh_sig_script_empty() {
    test_fail_p2pkh_sig_script_empty_common(None);
}

#[test]
/// Checks that invalid p2pkh transaction signatures are validated as such
fn test_fail_p2pkh_sig_script_empty_v0() {
    test_fail_p2pkh_sig_script_empty_common(Some(NETWORK_VERSION_V0));
}

#[test]
/// Checks that invalid p2pkh transaction signatures are validated as such
fn test_fail_p2pkh_sig_script_empty_temp() {
    test_fail_p2pkh_sig_script_empty_common(Some(NETWORK_VERSION_V0));
}

fn test_fail_p2pkh_sig_script_empty_common(address_version: Option<u64>) {
    let (pk, sk) = gen_keypair(1);
    let outpoint = OutPoint {
        t_hash: hex::encode(vec![0, 0, 0]),
        n: 0,
    };

    let hash_to_sign = construct_tx_in_signable_hash(&outpoint);
    let signature = sign_detached(hash_to_sign.as_bytes(), &sk);

    let tx_const = TxConstructor {
        previous_out: outpoint,
        signatures: vec![signature],
        pub_keys: vec![pk],
        address_version,
    };

    let mut tx_ins = Vec::new();

    for entry in vec![tx_const] {
        let mut new_tx_in = TxIn::new();
        new_tx_in.script_signature = Script::new();
        new_tx_in.previous_out = Some(entry.previous_out);

        tx_ins.push(new_tx_in);
    }

    let tx_out_pk = construct_address(&pk);

    assert!(!tx_has_valid_p2pkh_sig(
        &tx_ins[0].script_signature,
        &hash_to_sign,
        &tx_out_pk
    ));
}

#[test]
/// Checks that invalid p2pkh transaction signatures are validated as such
fn test_fail_p2pkh_sig_script_invalid_struct() {
    test_fail_p2pkh_sig_script_invalid_struct_common(None);
}

#[test]
/// Checks that invalid p2pkh transaction signatures are validated as such
fn test_fail_p2pkh_sig_script_invalid_struct_v0() {
    test_fail_p2pkh_sig_script_invalid_struct_common(Some(NETWORK_VERSION_V0));
}

#[test]
/// Checks that invalid p2pkh transaction signatures are validated as such
fn test_fail_p2pkh_sig_script_invalid_struct_temp() {
    test_fail_p2pkh_sig_script_invalid_struct_common(Some(NETWORK_VERSION_TEMP));
}

fn test_fail_p2pkh_sig_script_invalid_struct_common(address_version: Option<u64>) {
    let (pk, sk) = gen_keypair(1);
    let outpoint = OutPoint {
        t_hash: hex::encode(vec![0, 0, 0]),
        n: 0,
    };

    let hash_to_sign = construct_tx_in_signable_hash(&outpoint);
    let signature = sign_detached(hash_to_sign.as_bytes(), &sk);

    let tx_const = TxConstructor {
        previous_out: outpoint,
        signatures: vec![signature],
        pub_keys: vec![pk],
        address_version,
    };

    let mut tx_ins = Vec::new();

    for entry in vec![tx_const] {
        let mut new_tx_in = TxIn::new();
        new_tx_in.script_signature = Script::new();
        new_tx_in
            .script_signature
            .stack
            .push(StackEntry::Bytes("".to_string()));
        new_tx_in.previous_out = Some(entry.previous_out);

        tx_ins.push(new_tx_in);
    }

    let tx_out_pk = construct_address(&pk);

    assert!(!tx_has_valid_p2pkh_sig(
        &tx_ins[0].script_signature,
        &hash_to_sign,
        &tx_out_pk
    ));
}

#[test]
/// Checks that correct multisig validation signatures are validated as such
fn test_pass_multisig_validation_valid() {
    test_pass_multisig_validation_valid_common(None);
}

#[test]
/// Checks that correct multisig validation signatures are validated as such
fn test_pass_multisig_validation_valid_v0() {
    test_pass_multisig_validation_valid_common(Some(NETWORK_VERSION_V0));
}

#[test]
/// Checks that correct multisig validation signatures are validated as such
fn test_pass_multisig_validation_valid_temp() {
    test_pass_multisig_validation_valid_common(Some(NETWORK_VERSION_TEMP));
}

fn test_pass_multisig_validation_valid_common(address_version: Option<u64>) {
    let (first_pk, first_sk) = gen_keypair(1);
    let (second_pk, second_sk) = gen_keypair(2);
    let (third_pk, _third_sk) = gen_keypair(3);
    let check_data = hex::encode(vec![0, 0, 0]);

    let m = 2;
    let first_sig = sign_detached(check_data.as_bytes(), &first_sk);
    let second_sig = sign_detached(check_data.as_bytes(), &second_sk);

    let tx_const = TxConstructor {
        previous_out: OutPoint::new(check_data, 0),
        signatures: vec![first_sig, second_sig],
        pub_keys: vec![first_pk, second_pk, third_pk],
        address_version,
    };

    let tx_ins = create_multisig_tx_ins(vec![tx_const], m);

    assert!(interpret_script(&tx_ins[0].script_signature));
}

#[test]
/// Validate tx_is_valid for multiple TxIn configurations
fn test_tx_is_valid() {
    test_tx_is_valid_common(None, OpCodes::OP_HASH256);
}

#[test]
/// Validate tx_is_valid for multiple TxIn configurations
fn test_tx_is_valid_v0() {
    test_tx_is_valid_common(Some(NETWORK_VERSION_V0), OpCodes::OP_HASH256V0);
}

#[test]
/// Validate tx_is_valid for multiple TxIn configurations
fn test_tx_is_valid_temp() {
    test_tx_is_valid_common(Some(NETWORK_VERSION_TEMP), OpCodes::OP_HASH256TEMP);
}

fn test_tx_is_valid_common(address_version: Option<u64>, op_hash256: OpCodes) {
    //
    // Arrange
    //
    let (pk, sk) = gen_keypair(1);
    let tx_hash = hex::encode(vec![0, 0, 0]);
    let tx_outpoint = OutPoint::new(tx_hash, 0);
    let script_public_key = construct_address_for(&pk, address_version);
    let tx_in_previous_out =
        TxOut::new_token_amount(script_public_key.clone(), TokenAmount(5), None);
    let ongoing_tx_outs = vec![tx_in_previous_out.clone()];

    let valid_bytes = construct_tx_in_signable_hash(&tx_outpoint);
    let valid_sig = sign_detached(valid_bytes.as_bytes(), &sk);

    // Scripts and the outcomes expected of them:
    let inputs = vec![
        // a valid script
        (
            vec![
                StackEntry::Bytes(valid_bytes),
                StackEntry::Signature(valid_sig),
                StackEntry::PubKey(pk),
                StackEntry::Op(OpCodes::OP_DUP),
                StackEntry::Op(op_hash256),
                StackEntry::PubKeyHash(script_public_key),
                StackEntry::Op(OpCodes::OP_EQUALVERIFY),
                StackEntry::Op(OpCodes::OP_CHECKSIG),
            ],
            true,
        ),
        // a script of the wrong shape
        (vec![StackEntry::Bytes("".to_string())], false),
    ];

    //
    // Act
    //
    let mut actual_result = Vec::new();
    for (script, _) in &inputs {
        let tx_ins = vec![TxIn {
            script_signature: Script {
                stack: script.clone(),
            },
            previous_out: Some(tx_outpoint.clone()),
        }];

        let tx = Transaction {
            inputs: tx_ins,
            outputs: ongoing_tx_outs.clone(),
            ..Default::default()
        };

        let result = tx_is_valid(&tx, |v| {
            Some(&tx_in_previous_out).filter(|_| v == &tx_outpoint)
        });
        actual_result.push(result);
    }

    //
    // Assert
    //
    assert_eq!(
        actual_result,
        inputs.iter().map(|(_, e)| *e).collect::<Vec<bool>>(),
    );
}

#[test]
///  - *Tokens only*
/// -  *Success*
///
/// 1. Inputs contain two `TxIn`s for `Token`s of amounts `3` and `2`
/// 2. Outputs contain `TxOut`s for `Token`s of amounts `3` and `2`
fn test_tx_drs_tokens_only_success() {
    test_tx_drs_common(
        &[(3, None, None), (2, None, None)],
        &[(3, None), (2, None)],
        true,
    );
}

#[test]
///  - *Tokens only*
/// -  *Failure*
///
/// 1. Inputs contain two `TxIn`s for `Token`s of amounts `3` and `2`
/// 2. Outputs contain `TxOut`s for `Token`s of amounts `3` and `3`
/// 3. `TxIn` `Token`s amount does not match `TxOut` `Token`s amount
fn test_tx_drs_tokens_only_failure_amount_mismatch() {
    test_tx_drs_common(
        &[(3, None, None), (2, None, None)],
        &[(3, None), (3, None)],
        false,
    );
}

#[test]
///  - *Items only*
/// -  *Failure*
///
/// 1. Inputs contain two `TxIn`s for items of amount `3` and `2` with different genesis hashes
/// 2. Outputs contain `TxOut`s for items of amount `3` and `3`
/// 3. The genesis hashes match; the amounts of items spent do not
fn test_tx_drs_receipts_only_failure_amount_mismatch() {
    test_tx_drs_common(
        &[
            (3, Some("drs_tx_hash_1"), None),
            (2, Some("drs_tx_hash_2"), None),
        ],
        &[(3, Some("drs_tx_hash_1")), (3, Some("drs_tx_hash_2"))],
        false,
    );
}

#[test]
///  - *Items only*
/// -  *Failure*
///
/// 1. Inputs contain two `TxIn`s for items of amount `3` and `2` with different genesis hashes
/// 2. Outputs contain `TxOut`s for items of amount `3` and `2`
/// 3. The genesis hashes do not match; the amounts of items spent do
fn test_tx_drs_receipts_only_failure_drs_mismatch() {
    test_tx_drs_common(
        &[
            (3, Some("drs_tx_hash_1"), None),
            (2, Some("drs_tx_hash_2"), None),
        ],
        &[(3, Some("drs_tx_hash_1")), (2, Some("invalid_drs_tx_hash"))],
        false,
    );
}

#[test]
///  - *Items and Tokens*
/// -  *Success*
///
/// 1. Inputs contain two `TxIn`s for items of amount `3` and `Token`s of amount `2`
/// 2. Outputs contain `TxOut`s for items of amount `3` and `Token`s of amount `2`
/// 3. The genesis hashes match; the amounts of items and `Token`s spent match
fn test_tx_drs_receipts_and_tokens_success() {
    test_tx_drs_common(
        &[(3, Some("drs_tx_hash"), None), (2, None, None)],
        &[(3, Some("drs_tx_hash")), (2, None)],
        true,
    );
}

#[test]
///  - *Items and Tokens*
/// -  *Failure*
///
/// 1. Inputs contain two `TxIn`s for items of amount `3` and `Token`s of amount `2`
/// 2. Outputs contain `TxOut`s for items of amount `2` and `Token`s of amount `2`
/// 3. The genesis hashes match; the amounts of items spent do not
fn test_tx_drs_receipts_and_tokens_failure_amount_mismatch() {
    test_tx_drs_common(
        &[(3, Some("drs_tx_hash"), None), (2, None, None)],
        &[(2, Some("drs_tx_hash")), (2, None)],
        false,
    );
}

#[test]
///  - *Items and Tokens*
/// -  *Failure*
///
/// 1. Inputs contain two `TxIn`s for items of amount `3` and `Token`s of amount `2`
/// 2. Outputs contain `TxOut`s for items of amount `1` and Tokens of amount `1`
/// 3. Neither the genesis hashes nor the amounts match
fn test_tx_drs_receipts_and_tokens_failure_amount_and_drs_mismatch() {
    let test_metadata: Option<String> = Some(
        "{\"name\":\"test\",\"description\":\"test\",\"image\":\"test\",\"url\":\"test\"}"
            .to_string(),
    );

    test_tx_drs_common(
        &[
            (3, Some("drs_tx_hash"), test_metadata.clone()),
            (2, None, test_metadata),
        ],
        &[(1, Some("invalid_drs_tx_hash")), (1, None)],
        false,
    );
}

/// Builds a transaction whose inputs spend outputs of the assets given, all
/// locked to one key and unlocked by its signature, with the matching UTXO
/// set.
fn generate_tx_with_ins_and_outs_assets(
    input_assets: &[(u64, Option<&str>, Option<String>)],
    output_assets: &[(u64, Option<&str>)],
) -> (BTreeMap<OutPoint, TxOut>, Transaction) {
    let (pk, sk) = gen_keypair(1);
    let spk = construct_address(&pk);
    let mut tx = Transaction::new();
    let mut utxo_set: BTreeMap<OutPoint, TxOut> = BTreeMap::new();

    for (input_amount, genesis_hash, md) in input_assets {
        let tx_previous_out = OutPoint::new("tx_hash".to_owned(), tx.inputs.len() as i32);
        let tx_in_previous_out = match genesis_hash {
            Some(drs) => {
                let item = ItemAsset::new(*input_amount, Some(drs.to_string()), md.clone());
                TxOut::new_item_amount(spk.clone(), item, None)
            }
            None => TxOut::new_token_amount(spk.clone(), TokenAmount(*input_amount), None),
        };
        let signable_hash = construct_tx_in_signable_hash(&tx_previous_out);
        let signature = sign_detached(signable_hash.as_bytes(), &sk);
        let tx_in = TxIn::new_from_input(
            tx_previous_out.clone(),
            Script::pay2pkh(signable_hash, signature, pk, None),
        );
        utxo_set.insert(tx_previous_out, tx_in_previous_out);
        tx.inputs.push(tx_in);
    }

    for (output_amount, genesis_hash) in output_assets {
        let tx_out = match genesis_hash {
            Some(drs) => {
                let item = ItemAsset::new(*output_amount, Some(drs.to_string()), None);
                TxOut::new_item_amount(spk.clone(), item, None)
            }
            None => TxOut::new_token_amount(spk.clone(), TokenAmount(*output_amount), None),
        };
        tx.outputs.push(tx_out);
    }

    (utxo_set, tx)
}

/// Test transaction validation with multiple different genesis hash
/// configurations for `TxIn` and `TxOut` values
fn test_tx_drs_common(
    inputs: &[(u64, Option<&str>, Option<String>)],
    outputs: &[(u64, Option<&str>)],
    expected_result: bool,
) {
    //
    // Arrange
    //
    let (utxo, tx) = generate_tx_with_ins_and_outs_assets(inputs, outputs);

    //
    // Act
    //
    let actual_result = tx_is_valid(&tx, |v| utxo.get(v));

    //
    // Assert
    //
    assert_eq!(actual_result, expected_result);
}

#[test]
/// Checks that incorrect member interpret scripts are validated as such
fn test_fail_interpret_valid() {
    test_fail_interpret_valid_common(None);
}

#[test]
/// Checks that incorrect member interpret scripts are validated as such
fn test_fail_interpret_valid_v0() {
    test_fail_interpret_valid_common(Some(NETWORK_VERSION_V0));
}

#[test]
/// Checks that incorrect member interpret scripts are validated as such
fn test_fail_interpret_valid_temp() {
    test_fail_interpret_valid_common(Some(NETWORK_VERSION_TEMP));
}

fn test_fail_interpret_valid_common(address_version: Option<u64>) {
    let (_pk, sk) = gen_keypair(1);
    let (pk, _sk) = gen_keypair(2);
    let t_hash = hex::encode(vec![0, 0, 0]);
    let signature = sign_detached(t_hash.as_bytes(), &sk);

    let tx_const = TxConstructor {
        previous_out: OutPoint::new(t_hash, 0),
        signatures: vec![signature],
        pub_keys: vec![pk],
        address_version,
    };

    let tx_ins = create_multisig_member_tx_ins(vec![tx_const]);

    assert!(!interpret_script(&(tx_ins[0].clone().script_signature)));
}

#[test]
/// Checks that interpret scripts are validated as such
fn test_pass_interpret_valid() {
    test_pass_interpret_valid_common(None);
}

#[test]
/// Checks that interpret scripts are validated as such
fn test_pass_interpret_valid_v0() {
    test_pass_interpret_valid_common(Some(NETWORK_VERSION_V0));
}

#[test]
/// Checks that interpret scripts are validated as such
fn test_pass_interpret_valid_temp() {
    test_pass_interpret_valid_common(Some(NETWORK_VERSION_TEMP));
}

fn test_pass_interpret_valid_common(address_version: Option<u64>) {
    let (pk, sk) = gen_keypair(1);
    let t_hash = hex::encode(vec![0, 0, 0]);
    let signature = sign_detached(t_hash.as_bytes(), &sk);

    let tx_const = TxConstructor {
        previous_out: OutPoint::new(t_hash, 0),
        signatures: vec![signature],
        pub_keys: vec![pk],
        address_version,
    };

    let tx_ins = create_multisig_member_tx_ins(vec![tx_const]);

    assert!(interpret_script(&(tx_ins[0].clone().script_signature)));
}
