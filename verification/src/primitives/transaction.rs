//! Transactions and their parts.

use crate::constants::{ITEM_DEFAULT_DRS_TX_HASH, NETWORK_VERSION, P2SH_PREPEND, TX_PREPEND};
use crate::crypto::sha3_256;
use crate::crypto::sign_ed25519::{PublicKey, Signature};
use crate::primitives::asset::{copy_text, text_of, Asset, AssetView, ItemAsset, TokenAmount};
use crate::primitives::druid::{DdeValues, DdeValuesView};
use crate::script::lang::Script;
use crate::script::{OpCodes, StackEntry, Value};
use crate::utils::hex_codec::{
    ascii_bytes, hex_bytes, hex_decode, hex_encode, hex_text, is_hex_text, lemma_hex_round_trip,
    lemma_hex_text_is_ascii,
};
use crate::utils::text::{decimal_string, decimal_text};
use crate::utils::{joined, placeholder_bytes, shake256_of, PlaceholderIndexed};
use vstd::bytes::{spec_u64_to_le_bytes, u64_to_le_bytes};
use vstd::prelude::*;
use vstd::utf8::encode_utf8;

verus! {

/// How the genesis hash of a new item is chosen.
#[derive(Debug, Clone)]
pub enum GenesisTxHashSpec {
    /// The hash of the transaction that creates the item.
    Create,
    /// The hash that all items without one of their own share.
    Default,
}

impl GenesisTxHashSpec {
    /// The genesis hash to put into the new item: none where the creating
    /// transaction is to give its own.
    pub fn get_genesis_hash(&self) -> (hash: Option<String>)
        ensures
            match self {
                GenesisTxHashSpec::Create => hash is None,
                GenesisTxHashSpec::Default => hash is Some && hash->0@
                    == ITEM_DEFAULT_DRS_TX_HASH@,
            },
    {
        match self {
            GenesisTxHashSpec::Create => None,
            GenesisTxHashSpec::Default => Some(ITEM_DEFAULT_DRS_TX_HASH.to_owned()),
        }
    }
}

/// What is needed to build the input that spends one output.
#[derive(Clone, Debug, PartialEq, Eq)]
pub struct TxConstructor {
    pub previous_out: OutPoint,
    pub signatures: Vec<Signature>,
    pub pub_keys: Vec<PublicKey>,
    pub address_version: Option<u64>,
}

/// The number of bytes of a transaction hash.
pub const TX_HASH_LENGTH_BYTES: usize = 16;

/// The compact hash of a transaction: 31 hexadecimal digits, kept in 16
/// bytes of which the last has its low four bits clear.
#[derive(Debug, PartialEq, Eq, Hash, PartialOrd, Ord)]
pub struct TxHash {
    bytes: [u8; 16],
}

/// Why bytes or text are not a transaction hash.
#[derive(Debug)]
pub enum TxHashError {
    /// There are not 16 bytes, but as many as given.
    BadByteCount(usize),
    /// The low four bits of the last byte are not all clear.
    BadZeroBits,
    /// The text given has not 32 bytes.
    InvalidStringLength(String),
    /// The text given does not start with the prefix.
    InvalidPrefix(String),
    /// The text given is not hexadecimal after the prefix.
    InvalidHexData(String, hex::FromHexError),
}

/// Whether `bytes` are those of a transaction hash.
pub open spec fn is_tx_hash(bytes: Seq<u8>) -> bool {
    bytes.len() == 16 && bytes[15] % 16 == 0
}

/// The text of the transaction hash with the bytes `bytes`: the prefix, then
/// the first 31 hexadecimal digits of the bytes.
pub open spec fn tx_hash_text(bytes: Seq<u8>) -> Seq<char> {
    seq![TX_PREPEND as char] + hex_text(bytes).subrange(0, 31)
}

/// The hexadecimal digits that the text `text`, given by its bytes, holds
/// after the prefix, with the zero that the text leaves out.
pub open spec fn tx_hash_digits(text: Seq<u8>) -> Seq<u8> {
    text.subrange(1, text.len() as int).push(0x30)
}

/// The bytes of the transaction hash that the text `text`, given by its
/// bytes, stands for, if it stands for one: it has 32 bytes, starts with the
/// prefix, and goes on with hexadecimal digits.
pub open spec fn parse_tx_hash(text: Seq<u8>) -> Option<Seq<u8>> {
    if text.len() == 32 && text[0] == TX_PREPEND && is_hex_text(tx_hash_digits(text)) {
        Some(hex_bytes(tx_hash_digits(text)))
    } else {
        None
    }
}

impl View for TxHash {
    type V = Seq<u8>;

    closed spec fn view(&self) -> Seq<u8> {
        self.bytes@
    }
}

impl Clone for TxHash {
    fn clone(&self) -> (copy: Self)
        ensures
            copy@ == self@,
    {
        proof {
            use_type_invariant(self);
        }
        TxHash { bytes: self.bytes }
    }
}

impl TxHash {
    #[verifier::type_invariant]
    spec fn low_bits_clear(&self) -> bool {
        self.bytes@[15] % 16 == 0
    }

    /// The transaction hash with the bytes of `slice`. Fails where there are
    /// not 16 of them, and where the low four bits of the last are not clear.
    pub fn from_slice(slice: &[u8]) -> (hash: Result<TxHash, TxHashError>)
        ensures
            match hash {
                Ok(h) => is_tx_hash(slice@) && h@ == slice@,
                Err(TxHashError::BadByteCount(size)) => slice@.len() != 16 && size == slice@.len(),
                Err(TxHashError::BadZeroBits) => slice@.len() == 16 && slice@[15] % 16 != 0,
                Err(_) => false,
            },
    {
        if slice.len() != TX_HASH_LENGTH_BYTES {
            return Err(TxHashError::BadByteCount(slice.len()));
        }
        let last: u8 = slice[TX_HASH_LENGTH_BYTES - 1];
        assert(last & 0xF == last % 16) by (bit_vector);
        if (last & 0xF) != 0 {
            return Err(TxHashError::BadZeroBits);
        }
        let mut bytes: [u8; 16] = [0u8; 16];
        let mut i: usize = 0;
        while i < 16
            invariant
                i <= 16,
                slice@.len() == 16,
                forall|j: int| 0 <= j < i ==> bytes@[j] == slice@[j],
            decreases 16 - i,
        {
            bytes[i] = slice[i];
            i += 1;
        }
        assert(bytes@ =~= slice@);
        Ok(TxHash { bytes })
    }

    /// The transaction hash made of a SHA3-256 digest: its first 16 bytes,
    /// with the low four bits of the last of them cleared.
    pub fn from_hash(hash: sha3_256::Hash) -> (tx_hash: TxHash)
        ensures
            tx_hash@ == hash@.subrange(0, 15).push((hash@[15] - hash@[15] % 16) as u8),
    {
        let mut bytes: [u8; 16] = [0u8; 16];
        let mut i: usize = 0;
        while i < 16
            invariant
                i <= 16,
                forall|j: int| 0 <= j < i ==> bytes@[j] == hash@[j],
            decreases 16 - i,
        {
            bytes[i] = hash[i];
            i += 1;
        }
        let last: u8 = bytes[15];
        assert((last & 0xF0) % 16 == 0 && (last & 0xF0) == last - last % 16) by (bit_vector);
        bytes[15] = last & 0xF0;
        assert(bytes@ =~= hash@.subrange(0, 15).push((hash@[15] - hash@[15] % 16) as u8));
        TxHash { bytes }
    }

    /// The bytes of the hash.
    pub fn as_ref(&self) -> (bytes: &[u8])
        ensures
            bytes@ == self@,
            is_tx_hash(bytes@),
    {
        proof {
            use_type_invariant(self);
        }
        self.bytes.as_slice()
    }

    /// The text of the hash: the prefix and 31 hexadecimal digits.
    pub fn to_string(&self) -> (text: String)
        ensures
            text@ == tx_hash_text(self@),
            text@.len() == 32,
            is_tx_hash(self@),
    {
        proof {
            use_type_invariant(self);
        }
        let digits = hex_encode(self.bytes.as_slice());
        proof {
            lemma_hex_text_is_ascii(self.bytes@);
        }
        let mut text: String = "g".to_owned();
        proof {
            reveal_strlit("g");
            assert("g"@ =~= seq![TX_PREPEND as char]);
        }
        text.append(digits.as_str().substring_ascii(0, 31));
        text
    }

    /// The hash that `input` is the text of. Fails where `input` has not 32
    /// bytes, where it does not start with the prefix, and where it does not
    /// go on with hexadecimal digits.
    pub fn from_str(input: &str) -> (hash: Result<TxHash, TxHashError>)
        ensures
            match hash {
                Ok(h) => parse_tx_hash(encode_utf8(input@)) == Some(h@),
                Err(TxHashError::InvalidStringLength(text)) => encode_utf8(input@).len() != 32
                    && text@ == input@,
                Err(TxHashError::InvalidPrefix(text)) => encode_utf8(input@).len() == 32
                    && encode_utf8(input@)[0] != TX_PREPEND && text@ == input@,
                Err(TxHashError::InvalidHexData(text, _)) => encode_utf8(input@).len() == 32
                    && encode_utf8(input@)[0] == TX_PREPEND && !is_hex_text(
                    tx_hash_digits(encode_utf8(input@)),
                ) && text@ == input@,
                Err(_) => false,
            },
    {
        let text = input.as_bytes();
        if text.len() != 32 {
            return Err(TxHashError::InvalidStringLength(input.to_owned()));
        }
        if text[0] != TX_PREPEND {
            return Err(TxHashError::InvalidPrefix(input.to_owned()));
        }
        let mut digits: Vec<u8> = Vec::new();
        let mut i: usize = 1;
        while i < 32
            invariant
                1 <= i <= 32,
                text@.len() == 32,
                digits@ == text@.subrange(1, i as int),
            decreases 32 - i,
        {
            digits.push(text[i]);
            i += 1;
            assert(digits@ =~= text@.subrange(1, i as int));
        }
        digits.push(0x30);
        let bytes = match hex_decode(digits.as_slice()) {
            Ok(bytes) => bytes,
            Err(cause) => {
                return Err(TxHashError::InvalidHexData(input.to_owned(), cause));
            },
        };
        assert(bytes@[15] % 16 == 0);
        TxHash::from_slice(bytes.as_slice())
    }
}

/// The bytes of the stand-in hash for `index`: those that SHAKE256 gives
/// for a label and the eight bytes of the index, low byte first, with the
/// low four bits of the last one cleared.
pub open spec fn placeholder_hash_bytes(index: u64) -> Seq<u8> {
    let raw = shake256_of(encode_utf8("TxHash:"@) + spec_u64_to_le_bytes(index), 16);
    raw.update(15, (raw[15] - raw[15] % 16) as u8)
}

impl TxHash {
    /// The stand-in hash for `index`, for use in tests.
    pub fn placeholder_for(index: u64) -> (hash: TxHash)
        ensures
            hash@ == placeholder_hash_bytes(index),
    {
        let number = u64_to_le_bytes(index);
        let parts: [&[u8]; 2] = ["TxHash:".as_bytes(), number.as_slice()];
        proof {
            let seed = parts@;
            assert(seed.drop_last().drop_last() =~= Seq::<&[u8]>::empty());
            assert(seed.drop_last().last()@ == encode_utf8("TxHash:"@));
            reveal_with_fuel(joined, 3);
            assert(joined(seed) =~= encode_utf8("TxHash:"@) + spec_u64_to_le_bytes(index));
        }
        let mut bytes: [u8; 16] = placeholder_bytes::<16>(parts.as_slice());
        let last: u8 = bytes[15];
        assert((last & 0xF0) % 16 == 0 && (last & 0xF0) == last - last % 16) by (bit_vector);
        bytes[15] = last & 0xF0;
        TxHash { bytes }
    }
}

impl PlaceholderIndexed for TxHash {
    /// The stand-in hash for `index` is the one with the bytes that
    /// `placeholder_hash_bytes` gives for it.
    open spec fn is_placeholder_for(&self, index: u64) -> bool {
        self@ == placeholder_hash_bytes(index)
    }

    fn placeholder_indexed(index: u64) -> (hash: Self)
        ensures
            hash@ == placeholder_hash_bytes(index),
    {
        TxHash::placeholder_for(index)
    }
}

/// Whether `hash` is what reading the text `input` as a transaction hash
/// comes to: the hash that the text stands for, or the error that says why
/// it stands for none, with the text in it.
pub open spec fn is_reading_of(input: Seq<char>, hash: Result<TxHash, TxHashError>) -> bool {
    let text = encode_utf8(input);
    match hash {
        Ok(h) => parse_tx_hash(text) == Some(h@),
        Err(TxHashError::InvalidStringLength(given)) => text.len() != 32 && given@ == input,
        Err(TxHashError::InvalidPrefix(given)) => text.len() == 32 && text[0] != TX_PREPEND
            && given@ == input,
        Err(TxHashError::InvalidHexData(given, _)) => text.len() == 32 && text[0] == TX_PREPEND
            && !is_hex_text(tx_hash_digits(text)) && given@ == input,
        Err(_) => false,
    }
}

impl core::str::FromStr for TxHash {
    type Err = TxHashError;

    /// The hash that `input` is the text of, as `TxHash::from_str` reads it.
    fn from_str(input: &str) -> (hash: Result<TxHash, TxHashError>)
        ensures
            is_reading_of(input@, hash),
    {
        TxHash::from_str(input)
    }
}

/// A transaction hash written as text reads back as itself.
pub proof fn lemma_tx_hash_text_round_trip(bytes: Seq<u8>)
    requires
        is_tx_hash(bytes),
    ensures
        parse_tx_hash(encode_utf8(tx_hash_text(bytes))) == Some(bytes),
{
    let full = hex_text(bytes);
    let text = tx_hash_text(bytes);
    lemma_hex_text_is_ascii(bytes);
    lemma_hex_round_trip(bytes);
    assert(vstd::utf8::is_ascii_chars(text));
    vstd::utf8::is_ascii_chars_encode_utf8(text);
    let wire = encode_utf8(text);
    assert(wire.len() == 32);
    assert(wire[0] == text[0] as u8);
    assert(full[31] as u8 == 0x30);
    assert forall|i: int| 0 <= i < 32 implies tx_hash_digits(wire)[i] == ascii_bytes(full)[i] by {
        if i < 31 {
            assert(wire[i + 1] == text[i + 1] as u8);
        }
    }
    assert(tx_hash_digits(wire) =~= ascii_bytes(full));
}

/// What an `OutPoint` holds.
pub struct OutPointView {
    pub t_hash: Seq<char>,
    pub n: i32,
}

/// The place of an output: the hash of its transaction and its index there.
#[derive(Debug, PartialEq, Eq, PartialOrd, Ord, Hash)]
pub struct OutPoint {
    pub t_hash: String,
    pub n: i32,
}

impl Clone for OutPoint {
    fn clone(&self) -> (copy: Self)
        ensures
            copy == *self,
    {
        OutPoint { t_hash: self.t_hash.clone(), n: self.n }
    }
}

impl View for OutPoint {
    type V = OutPointView;

    open spec fn view(&self) -> OutPointView {
        OutPointView { t_hash: self.t_hash@, n: self.n }
    }
}

impl Default for OutPoint {
    fn default() -> (out_point: Self)
        ensures
            out_point@ == (OutPointView { t_hash: Seq::empty(), n: 0 }),
    {
        OutPoint::new(String::new(), 0)
    }
}

impl OutPointView {
    /// The text of the place: the hash and the index, each after its label.
    pub open spec fn text(self) -> Seq<char> {
        "t_hash:"@ + self.t_hash + "-n:"@ + decimal_text(self.n as int)
    }
}

impl OutPoint {
    /// The place of output `n` of the transaction `t_hash`.
    pub fn new(t_hash: String, n: i32) -> (out_point: OutPoint)
        ensures
            out_point.t_hash == t_hash,
            out_point.n == n,
    {
        OutPoint { t_hash, n }
    }

    /// The text of the place, as `t_hash:<hash>-n:<index>`.
    pub fn to_string(&self) -> (text: String)
        ensures
            text@ == self@.text(),
    {
        let mut text: String = "t_hash:".to_owned();
        text.append(self.t_hash.as_str());
        text.append("-n:");
        text.append(decimal_string(self.n as i128).as_str());
        text
    }
}

/// What a `TxIn` holds.
pub struct TxInView {
    pub previous_out: Option<OutPointView>,
    pub script_signature: Seq<Value>,
}

/// An input of a transaction: the output that it spends, and the script that
/// unlocks it. An input without an output creates what it brings in.
#[derive(Debug, PartialEq, Eq)]
pub struct TxIn {
    pub previous_out: Option<OutPoint>,
    pub script_signature: Script,
}

impl Clone for TxIn {
    fn clone(&self) -> (copy: Self)
        ensures
            copy@ == self@,
    {
        TxIn {
            previous_out: match &self.previous_out {
                Some(out_point) => Some(out_point.clone()),
                None => None,
            },
            script_signature: self.script_signature.clone(),
        }
    }
}

impl View for TxIn {
    type V = TxInView;

    open spec fn view(&self) -> TxInView {
        TxInView {
            previous_out: match self.previous_out {
                Some(out_point) => Some(out_point@),
                None => None,
            },
            script_signature: self.script_signature@,
        }
    }
}

impl Default for TxIn {
    fn default() -> (tx_in: Self)
        ensures
            tx_in@ == (TxInView {
                previous_out: None,
                script_signature: seq![Value::Op(OpCodes::OP_0)],
            }),
    {
        TxIn::new()
    }
}

impl TxIn {
    /// An input that spends nothing, with the script that pushes zero.
    pub fn new() -> (tx_in: TxIn)
        ensures
            tx_in@ == (TxInView {
                previous_out: None,
                script_signature: seq![Value::Op(OpCodes::OP_0)],
            }),
    {
        let mut script_sig = Script::new();
        script_sig.stack.push(StackEntry::Op(OpCodes::OP_0));
        assert(script_sig@ =~= seq![Value::Op(OpCodes::OP_0)]);
        TxIn { previous_out: None, script_signature: script_sig }
    }

    /// An input that spends nothing, with the script given.
    pub fn new_from_script(script_sig: Script) -> (tx_in: TxIn)
        ensures
            tx_in.previous_out is None,
            tx_in.script_signature == script_sig,
    {
        TxIn { previous_out: None, script_signature: script_sig }
    }

    /// The input that spends `previous_out` with the script given.
    pub fn new_from_input(previous_out: OutPoint, script_sig: Script) -> (tx_in: TxIn)
        ensures
            tx_in.previous_out == Some(previous_out),
            tx_in.script_signature == script_sig,
    {
        TxIn { previous_out: Some(previous_out), script_signature: script_sig }
    }
}

/// What a `TxOut` holds.
pub struct TxOutView {
    pub value: AssetView,
    pub locktime: u64,
    pub script_public_key: Option<Seq<char>>,
}

/// An output of a transaction: an asset, the block from which it can be
/// spent, and the address that it is locked to.
#[derive(Debug, PartialEq, Eq)]
pub struct TxOut {
    pub value: Asset,
    pub locktime: u64,
    pub script_public_key: Option<String>,
}

impl Clone for TxOut {
    fn clone(&self) -> (copy: Self)
        ensures
            copy == *self,
    {
        TxOut {
            value: self.value.clone(),
            locktime: self.locktime,
            script_public_key: copy_text(&self.script_public_key),
        }
    }
}

impl View for TxOut {
    type V = TxOutView;

    open spec fn view(&self) -> TxOutView {
        TxOutView {
            value: self.value@,
            locktime: self.locktime,
            script_public_key: text_of(self.script_public_key),
        }
    }
}

impl Default for TxOut {
    fn default() -> (tx_out: Self)
        ensures
            tx_out@ == (TxOutView {
                value: AssetView::Token(0),
                locktime: 0,
                script_public_key: None,
            }),
    {
        TxOut::new()
    }
}

/// Whether an address is that of a script: it starts with the prefix of
/// such addresses.
pub open spec fn is_p2sh_address(address: Option<Seq<char>>) -> bool {
    match address {
        Some(text) => encode_utf8(text).len() > 0 && encode_utf8(text)[0] == P2SH_PREPEND,
        None => false,
    }
}

/// Whether `address` is that of a script.
fn starts_with_p2sh_prepend(address: &Option<String>) -> (yes: bool)
    ensures
        yes == is_p2sh_address(text_of(*address)),
{
    match address {
        Some(text) => {
            let bytes = text.as_str().as_bytes();
            bytes.len() > 0 && bytes[0] == P2SH_PREPEND
        },
        None => false,
    }
}

impl TxOut {
    /// An output of no tokens, locked to nothing.
    pub fn new() -> (tx_out: TxOut)
        ensures
            tx_out@ == (TxOutView {
                value: AssetView::Token(0),
                locktime: 0,
                script_public_key: None,
            }),
    {
        TxOut { value: Asset::Token(TokenAmount(0)), locktime: 0, script_public_key: None }
    }

    /// An output of `amount` tokens for `to_address`, spendable at once
    /// where no `locktime` is given.
    pub fn new_token_amount(to_address: String, amount: TokenAmount, locktime: Option<u64>) -> (tx_out:
        TxOut)
        ensures
            tx_out.value == Asset::Token(amount),
            tx_out.locktime == locktime.unwrap_or(0),
            tx_out.script_public_key == Some(to_address),
    {
        TxOut {
            value: Asset::Token(amount),
            locktime: match locktime {
                Some(t) => t,
                None => 0,
            },
            script_public_key: Some(to_address),
        }
    }

    /// An output of the items `item` for `to_address`, spendable at once
    /// where no `locktime` is given.
    pub fn new_item_amount(to_address: String, item: ItemAsset, locktime: Option<u64>) -> (tx_out:
        TxOut)
        ensures
            tx_out.value == Asset::Item(item),
            tx_out.locktime == locktime.unwrap_or(0),
            tx_out.script_public_key == Some(to_address),
    {
        TxOut {
            value: Asset::Item(item),
            locktime: match locktime {
                Some(t) => t,
                None => 0,
            },
            script_public_key: Some(to_address),
        }
    }

    /// An output of `asset` for `to_address`, spendable at once where no
    /// `locktime` is given.
    pub fn new_asset(to_address: String, asset: Asset, locktime: Option<u64>) -> (tx_out: TxOut)
        ensures
            tx_out.value == asset,
            tx_out.locktime == locktime.unwrap_or(0),
            tx_out.script_public_key == Some(to_address),
    {
        match asset {
            Asset::Token(amount) => TxOut::new_token_amount(to_address, amount, locktime),
            Asset::Item(item) => TxOut::new_item_amount(to_address, item, locktime),
        }
    }

    /// Whether the output is locked to the address of a script.
    pub fn is_p2sh_tx_out(&self) -> (yes: bool)
        ensures
            yes == is_p2sh_address(self@.script_public_key),
    {
        starts_with_p2sh_prepend(&self.script_public_key)
    }
}

/// The views of some inputs, in their order.
pub open spec fn tx_in_views(inputs: Seq<TxIn>) -> Seq<TxInView> {
    inputs.map_values(|tx_in: TxIn| tx_in@)
}

/// The views of some outputs, in their order.
pub open spec fn tx_out_views(outputs: Seq<TxOut>) -> Seq<TxOutView> {
    outputs.map_values(|tx_out: TxOut| tx_out@)
}

/// What a `Transaction` holds. Validation reads the inputs and the outputs;
/// the version, the fees and the exchange data are kept and not read.
pub struct TransactionView {
    pub inputs: Seq<TxInView>,
    pub outputs: Seq<TxOutView>,
    pub version: usize,
    pub fees: Seq<TxOutView>,
    pub druid_info: Option<DdeValuesView>,
}

impl TransactionView {
    /// The asset that the transaction creates, if it is one that creates:
    /// it has one input, which spends nothing, and one output.
    pub open spec fn create_asset(self) -> Option<AssetView> {
        if self.inputs.len() == 1 && self.inputs[0].previous_out is None && self.outputs.len()
            == 1 {
            Some(self.outputs[0].value)
        } else {
            None
        }
    }
}

/// A transaction: inputs that spend outputs of earlier transactions, and
/// the outputs that it makes of them.
#[derive(Debug, PartialEq, Eq)]
pub struct Transaction {
    pub inputs: Vec<TxIn>,
    pub outputs: Vec<TxOut>,
    pub version: usize,
    pub fees: Vec<TxOut>,
    pub druid_info: Option<DdeValues>,
}

impl Clone for Transaction {
    fn clone(&self) -> (copy: Self)
        ensures
            copy@ == self@,
    {
        let copy = Transaction {
            inputs: self.inputs.clone(),
            outputs: self.outputs.clone(),
            version: self.version,
            fees: self.fees.clone(),
            druid_info: match &self.druid_info {
                Some(values) => Some(values.clone()),
                None => None,
            },
        };
        assert(copy@.inputs =~= self@.inputs);
        assert(copy@.outputs =~= self@.outputs);
        assert(copy@.fees =~= self@.fees);
        copy
    }
}

impl View for Transaction {
    type V = TransactionView;

    open spec fn view(&self) -> TransactionView {
        TransactionView {
            inputs: tx_in_views(self.inputs@),
            outputs: tx_out_views(self.outputs@),
            version: self.version,
            fees: tx_out_views(self.fees@),
            druid_info: match self.druid_info {
                Some(values) => Some(values@),
                None => None,
            },
        }
    }
}

impl Default for Transaction {
    fn default() -> (tx: Self)
        ensures
            tx@ == (TransactionView {
                inputs: Seq::empty(),
                outputs: Seq::empty(),
                version: NETWORK_VERSION as usize,
                fees: Seq::empty(),
                druid_info: None,
            }),
    {
        Transaction::new()
    }
}

impl Transaction {
    /// A transaction without inputs and outputs, of the current version.
    pub fn new() -> (tx: Transaction)
        ensures
            tx@ == (TransactionView {
                inputs: Seq::empty(),
                outputs: Seq::empty(),
                version: NETWORK_VERSION as usize,
                fees: Seq::empty(),
                druid_info: None,
            }),
    {
        let tx = Transaction {
            inputs: Vec::new(),
            outputs: Vec::new(),
            fees: Vec::new(),
            version: NETWORK_VERSION as usize,
            druid_info: None,
        };
        assert(tx@.inputs =~= Seq::empty());
        assert(tx@.outputs =~= Seq::empty());
        assert(tx@.fees =~= Seq::empty());
        tx
    }

    /// The asset that the transaction creates, if it is one that creates.
    pub fn get_create_asset(&self) -> (asset: Option<&Asset>)
        ensures
            match self@.create_asset() {
                Some(a) => asset is Some && asset->0@ == a,
                None => asset is None,
            },
    {
        let is_create = self.inputs.len() == 1 && self.inputs[0].previous_out.is_none()
            && self.outputs.len() == 1;
        if is_create {
            Some(&self.outputs[0].value)
        } else {
            None
        }
    }

    /// Whether the transaction creates tokens.
    pub fn is_coinbase(&self) -> (yes: bool)
        ensures
            yes == (self@.create_asset() is Some && self@.create_asset()->0 is Token),
    {
        match self.get_create_asset() {
            Some(asset) => asset.is_token(),
            None => false,
        }
    }

    /// Whether the transaction creates an asset other than tokens.
    pub fn is_create_tx(&self) -> (yes: bool)
        ensures
            yes == (self@.create_asset() is Some && !(self@.create_asset()->0 is Token)),
    {
        match self.get_create_asset() {
            Some(asset) => !asset.is_token(),
            None => false,
        }
    }

    /// Whether the transaction has a single output, locked to the address
    /// of a script.
    pub fn is_p2sh_tx(&self) -> (yes: bool)
        ensures
            yes == (self@.outputs.len() == 1 && is_p2sh_address(
                self@.outputs[0].script_public_key,
            )),
    {
        if self.outputs.len() != 1 {
            return false;
        }
        self.outputs[0].is_p2sh_tx_out()
    }
}

} // verus!
