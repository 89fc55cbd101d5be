//! Scripts, and the templates that the ledger's scripts are built from.

use crate::constants::{NETWORK_VERSION_TEMP, NETWORK_VERSION_V0};
use crate::crypto::sign_ed25519::{key_bytes, signature_bytes, PublicKey, Signature};
use crate::script::{values, OpCodes, StackEntry, Value};
use crate::utils::text::{byte_len, text_len};
use crate::utils::transaction_utils::{address_for, construct_address_for};
use crate::utils::ToOrdinal;
use vstd::bytes::{spec_u32_to_le_bytes, spec_u64_to_le_bytes, u32_to_le_bytes, u64_to_le_bytes};
use vstd::prelude::*;
use vstd::utf8::encode_utf8;

verus! {

/// A script: the entries that the interpreter goes through, in order.
#[derive(Debug, PartialEq, Eq)]
pub struct Script {
    pub stack: Vec<StackEntry>,
}

impl Clone for Script {
    fn clone(&self) -> (copy: Self)
        ensures
            copy@ == self@,
    {
        let copy = Script { stack: self.stack.clone() };
        assert(copy@ =~= self@);
        copy
    }
}

impl View for Script {
    type V = Seq<Value>;

    open spec fn view(&self) -> Seq<Value> {
        values(self.stack@)
    }
}

impl Default for Script {
    fn default() -> (script: Self)
        ensures
            script@ == Seq::<Value>::empty(),
    {
        Script::new()
    }
}

/// The opcode that derives an address under the scheme that `version`
/// selects.
pub open spec fn hash_op_for(version: Option<u64>) -> OpCodes {
    if version == Some(NETWORK_VERSION_V0) {
        OpCodes::OP_HASH256V0
    } else if version == Some(NETWORK_VERSION_TEMP) {
        OpCodes::OP_HASH256TEMP
    } else {
        OpCodes::OP_HASH256
    }
}

/// The script that spends an output locked to the address of `key`:
/// the signed data, the signature and the key, then the check that the key
/// has the address, then the check of the signature.
pub open spec fn pay2pkh_script(
    check_data: Seq<char>,
    signature: Seq<u8>,
    key: Seq<u8>,
    version: Option<u64>,
) -> Seq<Value> {
    seq![
        Value::Bytes(check_data),
        Value::Signature(signature),
        Value::PubKey(key),
        Value::Op(OpCodes::OP_DUP),
        Value::Op(hash_op_for(version)),
        Value::PubKeyHash(address_for(key, version)),
        Value::Op(OpCodes::OP_EQUALVERIFY),
        Value::Op(OpCodes::OP_CHECKSIG),
    ]
}

/// The script that shows one member's signature of `check_data`.
pub open spec fn member_multisig_script(
    check_data: Seq<char>,
    key: Seq<u8>,
    signature: Seq<u8>,
) -> Seq<Value> {
    seq![
        Value::Bytes(check_data),
        Value::Signature(signature),
        Value::PubKey(key),
        Value::Op(OpCodes::OP_CHECKSIG),
    ]
}

/// The script that creates an asset: the marker, the block number, which is
/// dropped again, and the check of a signature of the asset's hash.
pub open spec fn create_asset_script(
    block_number: u64,
    asset_hash: Seq<char>,
    signature: Seq<u8>,
    key: Seq<u8>,
) -> Seq<Value> {
    seq![
        Value::Op(OpCodes::OP_CREATE),
        Value::Num(block_number as usize),
        Value::Op(OpCodes::OP_DROP),
        Value::Bytes(asset_hash),
        Value::Signature(signature),
        Value::PubKey(key),
        Value::Op(OpCodes::OP_CHECKSIG),
    ]
}

/// One entry for each of `signatures`, in their order.
pub open spec fn signature_entries(signatures: Seq<Seq<u8>>) -> Seq<Value> {
    signatures.map_values(|s: Seq<u8>| Value::Signature(s))
}

/// One entry for each of `keys`, in their order.
pub open spec fn key_entries(keys: Seq<Seq<u8>>) -> Seq<Value> {
    keys.map_values(|k: Seq<u8>| Value::PubKey(k))
}

/// The script that asks for `m` signatures of `check_data` under `keys`,
/// which it announces to be `n`.
pub open spec fn multisig_lock_script(
    m: usize,
    n: usize,
    check_data: Seq<char>,
    keys: Seq<Seq<u8>>,
) -> Seq<Value> {
    seq![Value::Bytes(check_data), Value::Num(m)] + key_entries(keys) + seq![
        Value::Num(n),
        Value::Op(OpCodes::OP_CHECKMULTISIG),
    ]
}

/// The script that offers `signatures` of `check_data`.
pub open spec fn multisig_unlock_script(check_data: Seq<char>, signatures: Seq<Seq<u8>>) -> Seq<
    Value,
> {
    seq![Value::Bytes(check_data)] + signature_entries(signatures)
}

/// The script that checks `signatures` of `check_data` against `keys`: at
/// least `m` of them have to verify.
pub open spec fn multisig_validation_script(
    m: usize,
    n: usize,
    check_data: Seq<char>,
    signatures: Seq<Seq<u8>>,
    keys: Seq<Seq<u8>>,
) -> Seq<Value> {
    seq![Value::Bytes(check_data)] + signature_entries(signatures) + seq![Value::Num(m)]
        + key_entries(keys) + seq![Value::Num(n), Value::Op(OpCodes::OP_CHECKMULTISIG)]
}

/// The bytes that stand for one entry: a tag for its kind, then what it
/// holds; text goes after its length in bytes, and numbers take eight bytes,
/// the low one first.
pub open spec fn encode_entry(v: Value) -> Seq<u8> {
    match v {
        Value::Op(op) => seq![0u8] + spec_u32_to_le_bytes(op.ordinal()),
        Value::Signature(sig) => seq![1u8] + sig,
        Value::PubKey(key) => seq![2u8] + key,
        Value::PubKeyHash(text) => seq![3u8] + spec_u64_to_le_bytes(byte_len(text) as u64)
            + encode_utf8(text),
        Value::Num(n) => seq![4u8] + spec_u64_to_le_bytes(n as u64),
        Value::Bytes(text) => seq![5u8] + spec_u64_to_le_bytes(byte_len(text) as u64)
            + encode_utf8(text),
    }
}

/// The bytes that stand for some entries, one after the other.
pub open spec fn encode_entries(entries: Seq<Value>) -> Seq<u8>
    decreases entries.len(),
{
    if entries.len() == 0 {
        Seq::empty()
    } else {
        encode_entries(entries.drop_last()) + encode_entry(entries.last())
    }
}

/// The bytes that stand for a script: the number of its entries, then the
/// entries.
pub open spec fn encode_script(script: Seq<Value>) -> Seq<u8> {
    spec_u64_to_le_bytes(script.len() as u64) + encode_entries(script)
}

/// Appends `bytes` to `out`.
pub fn append_bytes(out: &mut Vec<u8>, bytes: &[u8])
    ensures
        final(out)@ == old(out)@ + bytes@,
{
    out.extend_from_slice(bytes);
    assert(out@ =~= old(out)@ + bytes@);
}

/// Appends the bytes that stand for `entry` to `out`.
fn encode_entry_into(out: &mut Vec<u8>, entry: &StackEntry)
    ensures
        final(out)@ == old(out)@ + encode_entry(entry@),
{
    match entry {
        StackEntry::Op(op) => {
            out.push(0u8);
            let ordinal = u32_to_le_bytes(op.to_ordinal());
            append_bytes(out, ordinal.as_slice());
            assert(out@ =~= old(out)@ + encode_entry(entry@));
        },
        StackEntry::Signature(sig) => {
            out.push(1u8);
            append_bytes(out, sig.as_ref());
            assert(out@ =~= old(out)@ + encode_entry(entry@));
        },
        StackEntry::PubKey(key) => {
            out.push(2u8);
            append_bytes(out, key.as_ref());
            assert(out@ =~= old(out)@ + encode_entry(entry@));
        },
        StackEntry::PubKeyHash(text) => {
            out.push(3u8);
            let len = u64_to_le_bytes(text_len(text.as_str()) as u64);
            append_bytes(out, len.as_slice());
            append_bytes(out, text.as_str().as_bytes());
            assert(out@ =~= old(out)@ + encode_entry(entry@));
        },
        StackEntry::Num(n) => {
            out.push(4u8);
            let number = u64_to_le_bytes(*n as u64);
            append_bytes(out, number.as_slice());
            assert(out@ =~= old(out)@ + encode_entry(entry@));
        },
        StackEntry::Bytes(text) => {
            out.push(5u8);
            let len = u64_to_le_bytes(text_len(text.as_str()) as u64);
            append_bytes(out, len.as_slice());
            append_bytes(out, text.as_str().as_bytes());
            assert(out@ =~= old(out)@ + encode_entry(entry@));
        },
    }
}

/// Appends one entry for each of `signatures`.
fn push_signatures(stack: &mut Vec<StackEntry>, signatures: &Vec<Signature>)
    ensures
        values(final(stack)@) == values(old(stack)@) + signature_entries(
            signature_bytes(signatures@),
        ),
{
    let mut i: usize = 0;
    assert(values(stack@) =~= values(old(stack)@) + signature_entries(
        signature_bytes(signatures@).subrange(0, 0),
    ));
    while i < signatures.len()
        invariant
            i <= signatures@.len(),
            values(stack@) == values(old(stack)@) + signature_entries(
                signature_bytes(signatures@).subrange(0, i as int),
            ),
        decreases signatures@.len() - i,
    {
        let ghost before = values(stack@);
        stack.push(StackEntry::Signature(signatures[i]));
        proof {
            let all = signature_bytes(signatures@);
            assert(values(stack@) =~= before.push(Value::Signature(all[i as int])));
            assert(all.subrange(0, i + 1) =~= all.subrange(0, i as int).push(all[i as int]));
            assert(signature_entries(all.subrange(0, i + 1)) =~= signature_entries(
                all.subrange(0, i as int),
            ).push(Value::Signature(all[i as int])));
        }
        i += 1;
    }
    assert(signature_bytes(signatures@).subrange(0, i as int)
        =~= signature_bytes(signatures@));
}

/// Appends one entry for each of `pub_keys`.
fn push_keys(stack: &mut Vec<StackEntry>, pub_keys: &Vec<PublicKey>)
    ensures
        values(final(stack)@) == values(old(stack)@) + key_entries(
            key_bytes(pub_keys@),
        ),
{
    let mut i: usize = 0;
    assert(values(stack@) =~= values(old(stack)@) + key_entries(
        key_bytes(pub_keys@).subrange(0, 0),
    ));
    while i < pub_keys.len()
        invariant
            i <= pub_keys@.len(),
            values(stack@) == values(old(stack)@) + key_entries(
                key_bytes(pub_keys@).subrange(0, i as int),
            ),
        decreases pub_keys@.len() - i,
    {
        let ghost before = values(stack@);
        stack.push(StackEntry::PubKey(pub_keys[i]));
        proof {
            let all = key_bytes(pub_keys@);
            assert(values(stack@) =~= before.push(Value::PubKey(all[i as int])));
            assert(all.subrange(0, i + 1) =~= all.subrange(0, i as int).push(all[i as int]));
            assert(key_entries(all.subrange(0, i + 1)) =~= key_entries(
                all.subrange(0, i as int),
            ).push(Value::PubKey(all[i as int])));
        }
        i += 1;
    }
    assert(key_bytes(pub_keys@).subrange(0, i as int) =~= key_bytes(pub_keys@));
}

impl Script {
    /// The bytes that stand for the script.
    pub fn encode(&self) -> (bytes: Vec<u8>)
        ensures
            bytes@ == encode_script(self@),
    {
        let mut bytes: Vec<u8> = u64_to_le_bytes(self.stack.len() as u64);
        let ghost head = bytes@;
        let mut i: usize = 0;
        assert(self@.subrange(0, 0) =~= Seq::<Value>::empty());
        assert(bytes@ =~= head + encode_entries(self@.subrange(0, 0)));
        while i < self.stack.len()
            invariant
                i <= self.stack@.len(),
                bytes@ == head + encode_entries(self@.subrange(0, i as int)),
            decreases self.stack@.len() - i,
        {
            encode_entry_into(&mut bytes, &self.stack[i]);
            proof {
                let next = self@.subrange(0, i + 1);
                assert(next.drop_last() =~= self@.subrange(0, i as int));
                assert(next.last() == self.stack@[i as int]@);
                assert(bytes@ =~= head + encode_entries(next));
            }
            i += 1;
        }
        assert(self@.subrange(0, i as int) =~= self@);
        bytes
    }

    /// The empty script.
    pub fn new() -> (script: Script)
        ensures
            script@ == Seq::<Value>::empty(),
    {
        let script = Script { stack: Vec::new() };
        assert(script@ =~= Seq::<Value>::empty());
        script
    }

    /// The script of the input of a coinbase transaction: the number of the
    /// block.
    pub fn new_for_coinbase(block_number: u64) -> (script: Script)
        ensures
            script@ == seq![Value::Num(block_number as usize)],
    {
        let mut stack: Vec<StackEntry> = Vec::new();
        stack.push(StackEntry::Num(#[verifier::truncate] (block_number as usize)));
        let script = Script { stack };
        assert(script@ =~= seq![Value::Num(block_number as usize)]);
        script
    }

    /// The script of the input of a transaction that creates an asset.
    pub fn new_create_asset(
        block_number: u64,
        asset_hash: String,
        signature: Signature,
        pub_key: PublicKey,
    ) -> (script: Script)
        ensures
            script@ == create_asset_script(block_number, asset_hash@, signature@, pub_key@),
    {
        let mut stack: Vec<StackEntry> = Vec::new();
        stack.push(StackEntry::Op(OpCodes::OP_CREATE));
        stack.push(StackEntry::Num(#[verifier::truncate] (block_number as usize)));
        stack.push(StackEntry::Op(OpCodes::OP_DROP));
        stack.push(StackEntry::Bytes(asset_hash));
        stack.push(StackEntry::Signature(signature));
        stack.push(StackEntry::PubKey(pub_key));
        stack.push(StackEntry::Op(OpCodes::OP_CHECKSIG));
        let script = Script { stack };
        assert(script@ =~= create_asset_script(block_number, asset_hash@, signature@, pub_key@));
        script
    }

    /// The script that spends an output locked to the address of `pub_key`
    /// under the scheme that `address_version` selects.
    pub fn pay2pkh(
        check_data: String,
        signature: Signature,
        pub_key: PublicKey,
        address_version: Option<u64>,
    ) -> (script: Script)
        ensures
            script@ == pay2pkh_script(check_data@, signature@, pub_key@, address_version),
    {
        let hash_op = match address_version {
            Some(v) => {
                if v == NETWORK_VERSION_V0 {
                    OpCodes::OP_HASH256V0
                } else if v == NETWORK_VERSION_TEMP {
                    OpCodes::OP_HASH256TEMP
                } else {
                    OpCodes::OP_HASH256
                }
            },
            None => OpCodes::OP_HASH256,
        };
        let address = construct_address_for(&pub_key, address_version);
        let mut stack: Vec<StackEntry> = Vec::new();
        stack.push(StackEntry::Bytes(check_data));
        stack.push(StackEntry::Signature(signature));
        stack.push(StackEntry::PubKey(pub_key));
        stack.push(StackEntry::Op(OpCodes::OP_DUP));
        stack.push(StackEntry::Op(hash_op));
        stack.push(StackEntry::PubKeyHash(address));
        stack.push(StackEntry::Op(OpCodes::OP_EQUALVERIFY));
        stack.push(StackEntry::Op(OpCodes::OP_CHECKSIG));
        let script = Script { stack };
        assert(script@ =~= pay2pkh_script(check_data@, signature@, pub_key@, address_version));
        script
    }

    /// The script that shows one member's signature of `check_data`.
    pub fn member_multisig(check_data: String, pub_key: PublicKey, signature: Signature) -> (script:
        Script)
        ensures
            script@ == member_multisig_script(check_data@, pub_key@, signature@),
    {
        let mut stack: Vec<StackEntry> = Vec::new();
        stack.push(StackEntry::Bytes(check_data));
        stack.push(StackEntry::Signature(signature));
        stack.push(StackEntry::PubKey(pub_key));
        stack.push(StackEntry::Op(OpCodes::OP_CHECKSIG));
        let script = Script { stack };
        assert(script@ =~= member_multisig_script(check_data@, pub_key@, signature@));
        script
    }

    /// The script that asks for `m` signatures of `check_data` under
    /// `pub_keys`.
    pub fn multisig_lock(m: usize, n: usize, check_data: String, pub_keys: Vec<PublicKey>) -> (script:
        Script)
        ensures
            script@ == multisig_lock_script(
                m,
                n,
                check_data@,
                key_bytes(pub_keys@),
            ),
    {
        let mut stack: Vec<StackEntry> = Vec::new();
        stack.push(StackEntry::Bytes(check_data));
        stack.push(StackEntry::Num(m));
        assert(values(stack@) =~= seq![Value::Bytes(check_data@), Value::Num(m)]);
        push_keys(&mut stack, &pub_keys);
        let ghost middle = values(stack@);
        stack.push(StackEntry::Num(n));
        stack.push(StackEntry::Op(OpCodes::OP_CHECKMULTISIG));
        let script = Script { stack };
        assert(script@ =~= middle + seq![Value::Num(n), Value::Op(OpCodes::OP_CHECKMULTISIG)]);
        script
    }

    /// The script that offers `signatures` of `check_data`.
    pub fn multisig_unlock(check_data: String, signatures: Vec<Signature>) -> (script: Script)
        ensures
            script@ == multisig_unlock_script(
                check_data@,
                signature_bytes(signatures@),
            ),
    {
        let mut stack: Vec<StackEntry> = Vec::new();
        stack.push(StackEntry::Bytes(check_data));
        assert(values(stack@) =~= seq![Value::Bytes(check_data@)]);
        push_signatures(&mut stack, &signatures);
        Script { stack }
    }

    /// The script that checks `signatures` of `check_data` against
    /// `pub_keys`.
    pub fn multisig_validation(
        m: usize,
        n: usize,
        check_data: String,
        signatures: Vec<Signature>,
        pub_keys: Vec<PublicKey>,
    ) -> (script: Script)
        ensures
            script@ == multisig_validation_script(
                m,
                n,
                check_data@,
                signature_bytes(signatures@),
                key_bytes(pub_keys@),
            ),
    {
        let mut stack: Vec<StackEntry> = Vec::new();
        stack.push(StackEntry::Bytes(check_data));
        assert(values(stack@) =~= seq![Value::Bytes(check_data@)]);
        push_signatures(&mut stack, &signatures);
        let ghost first = values(stack@);
        stack.push(StackEntry::Num(m));
        assert(values(stack@) =~= first + seq![Value::Num(m)]);
        push_keys(&mut stack, &pub_keys);
        let ghost middle = values(stack@);
        stack.push(StackEntry::Num(n));
        stack.push(StackEntry::Op(OpCodes::OP_CHECKMULTISIG));
        let script = Script { stack };
        assert(script@ =~= middle + seq![Value::Num(n), Value::Op(OpCodes::OP_CHECKMULTISIG)]);
        script
    }
}

} // verus!
