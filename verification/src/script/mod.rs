//! The scripting language: its opcodes and the entries that a script and the
//! interpreter's stacks are made of.

use crate::constants::{ED25519_PUBLIC_KEY_LEN, ED25519_SIGNATURE_LEN, MAX_SCRIPT_ITEM_SIZE};
use crate::crypto::sign_ed25519::{PublicKey, Signature};
use crate::utils::text::{byte_len, same_text};
use crate::utils::{is_listed, is_ordinal, FromName, FromOrdinal, ToName, ToOrdinal};
use vstd::prelude::*;
use vstd::std_specs::cmp::PartialEqSpecImpl;

pub mod interface_ops;
pub mod lang;

verus! {

/// The operations of the scripting language.
#[allow(non_camel_case_types)]
#[derive(Clone, Copy, Debug, PartialEq, Eq, Structural, Hash)]
pub enum OpCodes {
    // constants
    OP_0,
    OP_1,
    OP_2,
    OP_3,
    OP_4,
    OP_5,
    OP_6,
    OP_7,
    OP_8,
    OP_9,
    OP_10,
    OP_11,
    OP_12,
    OP_13,
    OP_14,
    OP_15,
    OP_16,
    // flow control
    OP_NOP,
    OP_VERIFY,
    OP_RETURN,
    // stack
    OP_TOALTSTACK,
    OP_FROMALTSTACK,
    OP_2DROP,
    OP_2DUP,
    OP_3DUP,
    OP_2OVER,
    OP_2ROT,
    OP_2SWAP,
    OP_IFDUP,
    OP_DEPTH,
    OP_DROP,
    OP_DUP,
    OP_NIP,
    OP_OVER,
    OP_PICK,
    OP_ROLL,
    OP_ROT,
    OP_SWAP,
    OP_TUCK,
    // splice
    OP_CAT,
    OP_SUBSTR,
    OP_LEFT,
    OP_RIGHT,
    OP_SIZE,
    // bitwise logic
    OP_INVERT,
    OP_AND,
    OP_OR,
    OP_XOR,
    OP_EQUAL,
    OP_EQUALVERIFY,
    // arithmetic
    OP_1ADD,
    OP_1SUB,
    OP_2MUL,
    OP_2DIV,
    OP_NOT,
    OP_0NOTEQUAL,
    OP_ADD,
    OP_SUB,
    OP_MUL,
    OP_DIV,
    OP_MOD,
    OP_LSHIFT,
    OP_RSHIFT,
    OP_BOOLAND,
    OP_BOOLOR,
    OP_NUMEQUAL,
    OP_NUMEQUALVERIFY,
    OP_NUMNOTEQUAL,
    OP_LESSTHAN,
    OP_GREATERTHAN,
    OP_LESSTHANOREQUAL,
    OP_GREATERTHANOREQUAL,
    OP_MIN,
    OP_MAX,
    OP_WITHIN,
    // crypto
    OP_SHA3,
    OP_HASH256,
    OP_HASH256V0,
    OP_HASH256TEMP,
    OP_CHECKSIG,
    OP_CHECKSIGVERIFY,
    OP_CHECKMULTISIG,
    OP_CHECKMULTISIGVERIFY,
    // asset creation
    OP_CREATE,
}

impl ToOrdinal for OpCodes {
    open spec fn ordinal(&self) -> u32 {
        match self {
            OpCodes::OP_0 => 0x00,
            OpCodes::OP_1 => 0x01,
            OpCodes::OP_2 => 0x02,
            OpCodes::OP_3 => 0x03,
            OpCodes::OP_4 => 0x04,
            OpCodes::OP_5 => 0x05,
            OpCodes::OP_6 => 0x06,
            OpCodes::OP_7 => 0x07,
            OpCodes::OP_8 => 0x08,
            OpCodes::OP_9 => 0x09,
            OpCodes::OP_10 => 0x0a,
            OpCodes::OP_11 => 0x0b,
            OpCodes::OP_12 => 0x0c,
            OpCodes::OP_13 => 0x0d,
            OpCodes::OP_14 => 0x0e,
            OpCodes::OP_15 => 0x0f,
            OpCodes::OP_16 => 0x10,
            OpCodes::OP_NOP => 0x20,
            OpCodes::OP_VERIFY => 0x21,
            OpCodes::OP_RETURN => 0x22,
            OpCodes::OP_TOALTSTACK => 0x30,
            OpCodes::OP_FROMALTSTACK => 0x31,
            OpCodes::OP_2DROP => 0x32,
            OpCodes::OP_2DUP => 0x33,
            OpCodes::OP_3DUP => 0x34,
            OpCodes::OP_2OVER => 0x35,
            OpCodes::OP_2ROT => 0x36,
            OpCodes::OP_2SWAP => 0x37,
            OpCodes::OP_IFDUP => 0x38,
            OpCodes::OP_DEPTH => 0x39,
            OpCodes::OP_DROP => 0x3a,
            OpCodes::OP_DUP => 0x3b,
            OpCodes::OP_NIP => 0x3c,
            OpCodes::OP_OVER => 0x3d,
            OpCodes::OP_PICK => 0x3e,
            OpCodes::OP_ROLL => 0x3f,
            OpCodes::OP_ROT => 0x40,
            OpCodes::OP_SWAP => 0x41,
            OpCodes::OP_TUCK => 0x42,
            OpCodes::OP_CAT => 0x50,
            OpCodes::OP_SUBSTR => 0x51,
            OpCodes::OP_LEFT => 0x52,
            OpCodes::OP_RIGHT => 0x53,
            OpCodes::OP_SIZE => 0x54,
            OpCodes::OP_INVERT => 0x60,
            OpCodes::OP_AND => 0x61,
            OpCodes::OP_OR => 0x62,
            OpCodes::OP_XOR => 0x63,
            OpCodes::OP_EQUAL => 0x64,
            OpCodes::OP_EQUALVERIFY => 0x65,
            OpCodes::OP_1ADD => 0x70,
            OpCodes::OP_1SUB => 0x71,
            OpCodes::OP_2MUL => 0x72,
            OpCodes::OP_2DIV => 0x73,
            OpCodes::OP_NOT => 0x74,
            OpCodes::OP_0NOTEQUAL => 0x75,
            OpCodes::OP_ADD => 0x76,
            OpCodes::OP_SUB => 0x77,
            OpCodes::OP_MUL => 0x78,
            OpCodes::OP_DIV => 0x79,
            OpCodes::OP_MOD => 0x7a,
            OpCodes::OP_LSHIFT => 0x7b,
            OpCodes::OP_RSHIFT => 0x7c,
            OpCodes::OP_BOOLAND => 0x7d,
            OpCodes::OP_BOOLOR => 0x7e,
            OpCodes::OP_NUMEQUAL => 0x7f,
            OpCodes::OP_NUMEQUALVERIFY => 0x80,
            OpCodes::OP_NUMNOTEQUAL => 0x81,
            OpCodes::OP_LESSTHAN => 0x82,
            OpCodes::OP_GREATERTHAN => 0x83,
            OpCodes::OP_LESSTHANOREQUAL => 0x84,
            OpCodes::OP_GREATERTHANOREQUAL => 0x85,
            OpCodes::OP_MIN => 0x86,
            OpCodes::OP_MAX => 0x87,
            OpCodes::OP_WITHIN => 0x88,
            OpCodes::OP_SHA3 => 0x90,
            OpCodes::OP_HASH256 => 0x91,
            OpCodes::OP_HASH256V0 => 0x92,
            OpCodes::OP_HASH256TEMP => 0x93,
            OpCodes::OP_CHECKSIG => 0x94,
            OpCodes::OP_CHECKSIGVERIFY => 0x95,
            OpCodes::OP_CHECKMULTISIG => 0x96,
            OpCodes::OP_CHECKMULTISIGVERIFY => 0x97,
            OpCodes::OP_CREATE => 0xa0,
        }
    }

    fn to_ordinal(&self) -> (ordinal: u32) {
        match self {
            OpCodes::OP_0 => 0x00,
            OpCodes::OP_1 => 0x01,
            OpCodes::OP_2 => 0x02,
            OpCodes::OP_3 => 0x03,
            OpCodes::OP_4 => 0x04,
            OpCodes::OP_5 => 0x05,
            OpCodes::OP_6 => 0x06,
            OpCodes::OP_7 => 0x07,
            OpCodes::OP_8 => 0x08,
            OpCodes::OP_9 => 0x09,
            OpCodes::OP_10 => 0x0a,
            OpCodes::OP_11 => 0x0b,
            OpCodes::OP_12 => 0x0c,
            OpCodes::OP_13 => 0x0d,
            OpCodes::OP_14 => 0x0e,
            OpCodes::OP_15 => 0x0f,
            OpCodes::OP_16 => 0x10,
            OpCodes::OP_NOP => 0x20,
            OpCodes::OP_VERIFY => 0x21,
            OpCodes::OP_RETURN => 0x22,
            OpCodes::OP_TOALTSTACK => 0x30,
            OpCodes::OP_FROMALTSTACK => 0x31,
            OpCodes::OP_2DROP => 0x32,
            OpCodes::OP_2DUP => 0x33,
            OpCodes::OP_3DUP => 0x34,
            OpCodes::OP_2OVER => 0x35,
            OpCodes::OP_2ROT => 0x36,
            OpCodes::OP_2SWAP => 0x37,
            OpCodes::OP_IFDUP => 0x38,
            OpCodes::OP_DEPTH => 0x39,
            OpCodes::OP_DROP => 0x3a,
            OpCodes::OP_DUP => 0x3b,
            OpCodes::OP_NIP => 0x3c,
            OpCodes::OP_OVER => 0x3d,
            OpCodes::OP_PICK => 0x3e,
            OpCodes::OP_ROLL => 0x3f,
            OpCodes::OP_ROT => 0x40,
            OpCodes::OP_SWAP => 0x41,
            OpCodes::OP_TUCK => 0x42,
            OpCodes::OP_CAT => 0x50,
            OpCodes::OP_SUBSTR => 0x51,
            OpCodes::OP_LEFT => 0x52,
            OpCodes::OP_RIGHT => 0x53,
            OpCodes::OP_SIZE => 0x54,
            OpCodes::OP_INVERT => 0x60,
            OpCodes::OP_AND => 0x61,
            OpCodes::OP_OR => 0x62,
            OpCodes::OP_XOR => 0x63,
            OpCodes::OP_EQUAL => 0x64,
            OpCodes::OP_EQUALVERIFY => 0x65,
            OpCodes::OP_1ADD => 0x70,
            OpCodes::OP_1SUB => 0x71,
            OpCodes::OP_2MUL => 0x72,
            OpCodes::OP_2DIV => 0x73,
            OpCodes::OP_NOT => 0x74,
            OpCodes::OP_0NOTEQUAL => 0x75,
            OpCodes::OP_ADD => 0x76,
            OpCodes::OP_SUB => 0x77,
            OpCodes::OP_MUL => 0x78,
            OpCodes::OP_DIV => 0x79,
            OpCodes::OP_MOD => 0x7a,
            OpCodes::OP_LSHIFT => 0x7b,
            OpCodes::OP_RSHIFT => 0x7c,
            OpCodes::OP_BOOLAND => 0x7d,
            OpCodes::OP_BOOLOR => 0x7e,
            OpCodes::OP_NUMEQUAL => 0x7f,
            OpCodes::OP_NUMEQUALVERIFY => 0x80,
            OpCodes::OP_NUMNOTEQUAL => 0x81,
            OpCodes::OP_LESSTHAN => 0x82,
            OpCodes::OP_GREATERTHAN => 0x83,
            OpCodes::OP_LESSTHANOREQUAL => 0x84,
            OpCodes::OP_GREATERTHANOREQUAL => 0x85,
            OpCodes::OP_MIN => 0x86,
            OpCodes::OP_MAX => 0x87,
            OpCodes::OP_WITHIN => 0x88,
            OpCodes::OP_SHA3 => 0x90,
            OpCodes::OP_HASH256 => 0x91,
            OpCodes::OP_HASH256V0 => 0x92,
            OpCodes::OP_HASH256TEMP => 0x93,
            OpCodes::OP_CHECKSIG => 0x94,
            OpCodes::OP_CHECKSIGVERIFY => 0x95,
            OpCodes::OP_CHECKMULTISIG => 0x96,
            OpCodes::OP_CHECKMULTISIGVERIFY => 0x97,
            OpCodes::OP_CREATE => 0xa0,
        }
    }
}

impl FromOrdinal for OpCodes {
    fn all_ordinals() -> (all: Vec<u32>) {
        let mut all: Vec<u32> = Vec::new();
        let mut ordinal: u32 = 0;
        while ordinal <= 0xa0
            invariant
                ordinal <= 0xa1,
                forall|i: int| 0 <= i < all@.len() ==> is_ordinal::<OpCodes>(#[trigger] all@[i]),
                forall|n: u32| n < ordinal && is_ordinal::<OpCodes>(n) ==> all@.contains(n),
            decreases 0xa1 - ordinal,
        {
            let ghost before = all@;
            match OpCodes::from_ordinal(ordinal) {
                Ok(op) => {
                    all.push(ordinal);
                    proof {
                        assert(op.ordinal() == ordinal);
                        assert(all@[all@.len() - 1] == ordinal);
                        assert forall|n: u32|
                            n < ordinal + 1 && is_ordinal::<OpCodes>(n) implies all@.contains(
                            n,
                        ) by {
                            if n < ordinal {
                                let k = choose|k: int| 0 <= k < before.len() && before[k] == n;
                                assert(all@[k] == n);
                            }
                        }
                    }
                },
                Err(_) => {},
            }
            ordinal += 1;
        }
        proof {
            assert forall|op: OpCodes| all@.contains(#[trigger] op.ordinal()) by {
                assert(op.ordinal() <= 0xa0);
                assert(is_ordinal::<OpCodes>(op.ordinal()));
            }
        }
        all
    }

    fn from_ordinal(ordinal: u32) -> (op: Result<Self, u32>) {
        match ordinal {
            0x00 => Ok(OpCodes::OP_0),
            0x01 => Ok(OpCodes::OP_1),
            0x02 => Ok(OpCodes::OP_2),
            0x03 => Ok(OpCodes::OP_3),
            0x04 => Ok(OpCodes::OP_4),
            0x05 => Ok(OpCodes::OP_5),
            0x06 => Ok(OpCodes::OP_6),
            0x07 => Ok(OpCodes::OP_7),
            0x08 => Ok(OpCodes::OP_8),
            0x09 => Ok(OpCodes::OP_9),
            0x0a => Ok(OpCodes::OP_10),
            0x0b => Ok(OpCodes::OP_11),
            0x0c => Ok(OpCodes::OP_12),
            0x0d => Ok(OpCodes::OP_13),
            0x0e => Ok(OpCodes::OP_14),
            0x0f => Ok(OpCodes::OP_15),
            0x10 => Ok(OpCodes::OP_16),
            0x20 => Ok(OpCodes::OP_NOP),
            0x21 => Ok(OpCodes::OP_VERIFY),
            0x22 => Ok(OpCodes::OP_RETURN),
            0x30 => Ok(OpCodes::OP_TOALTSTACK),
            0x31 => Ok(OpCodes::OP_FROMALTSTACK),
            0x32 => Ok(OpCodes::OP_2DROP),
            0x33 => Ok(OpCodes::OP_2DUP),
            0x34 => Ok(OpCodes::OP_3DUP),
            0x35 => Ok(OpCodes::OP_2OVER),
            0x36 => Ok(OpCodes::OP_2ROT),
            0x37 => Ok(OpCodes::OP_2SWAP),
            0x38 => Ok(OpCodes::OP_IFDUP),
            0x39 => Ok(OpCodes::OP_DEPTH),
            0x3a => Ok(OpCodes::OP_DROP),
            0x3b => Ok(OpCodes::OP_DUP),
            0x3c => Ok(OpCodes::OP_NIP),
            0x3d => Ok(OpCodes::OP_OVER),
            0x3e => Ok(OpCodes::OP_PICK),
            0x3f => Ok(OpCodes::OP_ROLL),
            0x40 => Ok(OpCodes::OP_ROT),
            0x41 => Ok(OpCodes::OP_SWAP),
            0x42 => Ok(OpCodes::OP_TUCK),
            0x50 => Ok(OpCodes::OP_CAT),
            0x51 => Ok(OpCodes::OP_SUBSTR),
            0x52 => Ok(OpCodes::OP_LEFT),
            0x53 => Ok(OpCodes::OP_RIGHT),
            0x54 => Ok(OpCodes::OP_SIZE),
            0x60 => Ok(OpCodes::OP_INVERT),
            0x61 => Ok(OpCodes::OP_AND),
            0x62 => Ok(OpCodes::OP_OR),
            0x63 => Ok(OpCodes::OP_XOR),
            0x64 => Ok(OpCodes::OP_EQUAL),
            0x65 => Ok(OpCodes::OP_EQUALVERIFY),
            0x70 => Ok(OpCodes::OP_1ADD),
            0x71 => Ok(OpCodes::OP_1SUB),
            0x72 => Ok(OpCodes::OP_2MUL),
            0x73 => Ok(OpCodes::OP_2DIV),
            0x74 => Ok(OpCodes::OP_NOT),
            0x75 => Ok(OpCodes::OP_0NOTEQUAL),
            0x76 => Ok(OpCodes::OP_ADD),
            0x77 => Ok(OpCodes::OP_SUB),
            0x78 => Ok(OpCodes::OP_MUL),
            0x79 => Ok(OpCodes::OP_DIV),
            0x7a => Ok(OpCodes::OP_MOD),
            0x7b => Ok(OpCodes::OP_LSHIFT),
            0x7c => Ok(OpCodes::OP_RSHIFT),
            0x7d => Ok(OpCodes::OP_BOOLAND),
            0x7e => Ok(OpCodes::OP_BOOLOR),
            0x7f => Ok(OpCodes::OP_NUMEQUAL),
            0x80 => Ok(OpCodes::OP_NUMEQUALVERIFY),
            0x81 => Ok(OpCodes::OP_NUMNOTEQUAL),
            0x82 => Ok(OpCodes::OP_LESSTHAN),
            0x83 => Ok(OpCodes::OP_GREATERTHAN),
            0x84 => Ok(OpCodes::OP_LESSTHANOREQUAL),
            0x85 => Ok(OpCodes::OP_GREATERTHANOREQUAL),
            0x86 => Ok(OpCodes::OP_MIN),
            0x87 => Ok(OpCodes::OP_MAX),
            0x88 => Ok(OpCodes::OP_WITHIN),
            0x90 => Ok(OpCodes::OP_SHA3),
            0x91 => Ok(OpCodes::OP_HASH256),
            0x92 => Ok(OpCodes::OP_HASH256V0),
            0x93 => Ok(OpCodes::OP_HASH256TEMP),
            0x94 => Ok(OpCodes::OP_CHECKSIG),
            0x95 => Ok(OpCodes::OP_CHECKSIGVERIFY),
            0x96 => Ok(OpCodes::OP_CHECKMULTISIG),
            0x97 => Ok(OpCodes::OP_CHECKMULTISIGVERIFY),
            0xa0 => Ok(OpCodes::OP_CREATE),
            _ => Err(ordinal),
        }
    }
}

impl ToName for OpCodes {
    open spec fn name(&self) -> Seq<char> {
        match self {
            OpCodes::OP_0 => "OP_0"@,
            OpCodes::OP_1 => "OP_1"@,
            OpCodes::OP_2 => "OP_2"@,
            OpCodes::OP_3 => "OP_3"@,
            OpCodes::OP_4 => "OP_4"@,
            OpCodes::OP_5 => "OP_5"@,
            OpCodes::OP_6 => "OP_6"@,
            OpCodes::OP_7 => "OP_7"@,
            OpCodes::OP_8 => "OP_8"@,
            OpCodes::OP_9 => "OP_9"@,
            OpCodes::OP_10 => "OP_10"@,
            OpCodes::OP_11 => "OP_11"@,
            OpCodes::OP_12 => "OP_12"@,
            OpCodes::OP_13 => "OP_13"@,
            OpCodes::OP_14 => "OP_14"@,
            OpCodes::OP_15 => "OP_15"@,
            OpCodes::OP_16 => "OP_16"@,
            OpCodes::OP_NOP => "OP_NOP"@,
            OpCodes::OP_VERIFY => "OP_VERIFY"@,
            OpCodes::OP_RETURN => "OP_RETURN"@,
            OpCodes::OP_TOALTSTACK => "OP_TOALTSTACK"@,
            OpCodes::OP_FROMALTSTACK => "OP_FROMALTSTACK"@,
            OpCodes::OP_2DROP => "OP_2DROP"@,
            OpCodes::OP_2DUP => "OP_2DUP"@,
            OpCodes::OP_3DUP => "OP_3DUP"@,
            OpCodes::OP_2OVER => "OP_2OVER"@,
            OpCodes::OP_2ROT => "OP_2ROT"@,
            OpCodes::OP_2SWAP => "OP_2SWAP"@,
            OpCodes::OP_IFDUP => "OP_IFDUP"@,
            OpCodes::OP_DEPTH => "OP_DEPTH"@,
            OpCodes::OP_DROP => "OP_DROP"@,
            OpCodes::OP_DUP => "OP_DUP"@,
            OpCodes::OP_NIP => "OP_NIP"@,
            OpCodes::OP_OVER => "OP_OVER"@,
            OpCodes::OP_PICK => "OP_PICK"@,
            OpCodes::OP_ROLL => "OP_ROLL"@,
            OpCodes::OP_ROT => "OP_ROT"@,
            OpCodes::OP_SWAP => "OP_SWAP"@,
            OpCodes::OP_TUCK => "OP_TUCK"@,
            OpCodes::OP_CAT => "OP_CAT"@,
            OpCodes::OP_SUBSTR => "OP_SUBSTR"@,
            OpCodes::OP_LEFT => "OP_LEFT"@,
            OpCodes::OP_RIGHT => "OP_RIGHT"@,
            OpCodes::OP_SIZE => "OP_SIZE"@,
            OpCodes::OP_INVERT => "OP_INVERT"@,
            OpCodes::OP_AND => "OP_AND"@,
            OpCodes::OP_OR => "OP_OR"@,
            OpCodes::OP_XOR => "OP_XOR"@,
            OpCodes::OP_EQUAL => "OP_EQUAL"@,
            OpCodes::OP_EQUALVERIFY => "OP_EQUALVERIFY"@,
            OpCodes::OP_1ADD => "OP_1ADD"@,
            OpCodes::OP_1SUB => "OP_1SUB"@,
            OpCodes::OP_2MUL => "OP_2MUL"@,
            OpCodes::OP_2DIV => "OP_2DIV"@,
            OpCodes::OP_NOT => "OP_NOT"@,
            OpCodes::OP_0NOTEQUAL => "OP_0NOTEQUAL"@,
            OpCodes::OP_ADD => "OP_ADD"@,
            OpCodes::OP_SUB => "OP_SUB"@,
            OpCodes::OP_MUL => "OP_MUL"@,
            OpCodes::OP_DIV => "OP_DIV"@,
            OpCodes::OP_MOD => "OP_MOD"@,
            OpCodes::OP_LSHIFT => "OP_LSHIFT"@,
            OpCodes::OP_RSHIFT => "OP_RSHIFT"@,
            OpCodes::OP_BOOLAND => "OP_BOOLAND"@,
            OpCodes::OP_BOOLOR => "OP_BOOLOR"@,
            OpCodes::OP_NUMEQUAL => "OP_NUMEQUAL"@,
            OpCodes::OP_NUMEQUALVERIFY => "OP_NUMEQUALVERIFY"@,
            OpCodes::OP_NUMNOTEQUAL => "OP_NUMNOTEQUAL"@,
            OpCodes::OP_LESSTHAN => "OP_LESSTHAN"@,
            OpCodes::OP_GREATERTHAN => "OP_GREATERTHAN"@,
            OpCodes::OP_LESSTHANOREQUAL => "OP_LESSTHANOREQUAL"@,
            OpCodes::OP_GREATERTHANOREQUAL => "OP_GREATERTHANOREQUAL"@,
            OpCodes::OP_MIN => "OP_MIN"@,
            OpCodes::OP_MAX => "OP_MAX"@,
            OpCodes::OP_WITHIN => "OP_WITHIN"@,
            OpCodes::OP_SHA3 => "OP_SHA3"@,
            OpCodes::OP_HASH256 => "OP_HASH256"@,
            OpCodes::OP_HASH256V0 => "OP_HASH256V0"@,
            OpCodes::OP_HASH256TEMP => "OP_HASH256TEMP"@,
            OpCodes::OP_CHECKSIG => "OP_CHECKSIG"@,
            OpCodes::OP_CHECKSIGVERIFY => "OP_CHECKSIGVERIFY"@,
            OpCodes::OP_CHECKMULTISIG => "OP_CHECKMULTISIG"@,
            OpCodes::OP_CHECKMULTISIGVERIFY => "OP_CHECKMULTISIGVERIFY"@,
            OpCodes::OP_CREATE => "OP_CREATE"@,
        }
    }

    fn to_name(&self) -> (name: &'static str) {
        match self {
            OpCodes::OP_0 => "OP_0",
            OpCodes::OP_1 => "OP_1",
            OpCodes::OP_2 => "OP_2",
            OpCodes::OP_3 => "OP_3",
            OpCodes::OP_4 => "OP_4",
            OpCodes::OP_5 => "OP_5",
            OpCodes::OP_6 => "OP_6",
            OpCodes::OP_7 => "OP_7",
            OpCodes::OP_8 => "OP_8",
            OpCodes::OP_9 => "OP_9",
            OpCodes::OP_10 => "OP_10",
            OpCodes::OP_11 => "OP_11",
            OpCodes::OP_12 => "OP_12",
            OpCodes::OP_13 => "OP_13",
            OpCodes::OP_14 => "OP_14",
            OpCodes::OP_15 => "OP_15",
            OpCodes::OP_16 => "OP_16",
            OpCodes::OP_NOP => "OP_NOP",
            OpCodes::OP_VERIFY => "OP_VERIFY",
            OpCodes::OP_RETURN => "OP_RETURN",
            OpCodes::OP_TOALTSTACK => "OP_TOALTSTACK",
            OpCodes::OP_FROMALTSTACK => "OP_FROMALTSTACK",
            OpCodes::OP_2DROP => "OP_2DROP",
            OpCodes::OP_2DUP => "OP_2DUP",
            OpCodes::OP_3DUP => "OP_3DUP",
            OpCodes::OP_2OVER => "OP_2OVER",
            OpCodes::OP_2ROT => "OP_2ROT",
            OpCodes::OP_2SWAP => "OP_2SWAP",
            OpCodes::OP_IFDUP => "OP_IFDUP",
            OpCodes::OP_DEPTH => "OP_DEPTH",
            OpCodes::OP_DROP => "OP_DROP",
            OpCodes::OP_DUP => "OP_DUP",
            OpCodes::OP_NIP => "OP_NIP",
            OpCodes::OP_OVER => "OP_OVER",
            OpCodes::OP_PICK => "OP_PICK",
            OpCodes::OP_ROLL => "OP_ROLL",
            OpCodes::OP_ROT => "OP_ROT",
            OpCodes::OP_SWAP => "OP_SWAP",
            OpCodes::OP_TUCK => "OP_TUCK",
            OpCodes::OP_CAT => "OP_CAT",
            OpCodes::OP_SUBSTR => "OP_SUBSTR",
            OpCodes::OP_LEFT => "OP_LEFT",
            OpCodes::OP_RIGHT => "OP_RIGHT",
            OpCodes::OP_SIZE => "OP_SIZE",
            OpCodes::OP_INVERT => "OP_INVERT",
            OpCodes::OP_AND => "OP_AND",
            OpCodes::OP_OR => "OP_OR",
            OpCodes::OP_XOR => "OP_XOR",
            OpCodes::OP_EQUAL => "OP_EQUAL",
            OpCodes::OP_EQUALVERIFY => "OP_EQUALVERIFY",
            OpCodes::OP_1ADD => "OP_1ADD",
            OpCodes::OP_1SUB => "OP_1SUB",
            OpCodes::OP_2MUL => "OP_2MUL",
            OpCodes::OP_2DIV => "OP_2DIV",
            OpCodes::OP_NOT => "OP_NOT",
            OpCodes::OP_0NOTEQUAL => "OP_0NOTEQUAL",
            OpCodes::OP_ADD => "OP_ADD",
            OpCodes::OP_SUB => "OP_SUB",
            OpCodes::OP_MUL => "OP_MUL",
            OpCodes::OP_DIV => "OP_DIV",
            OpCodes::OP_MOD => "OP_MOD",
            OpCodes::OP_LSHIFT => "OP_LSHIFT",
            OpCodes::OP_RSHIFT => "OP_RSHIFT",
            OpCodes::OP_BOOLAND => "OP_BOOLAND",
            OpCodes::OP_BOOLOR => "OP_BOOLOR",
            OpCodes::OP_NUMEQUAL => "OP_NUMEQUAL",
            OpCodes::OP_NUMEQUALVERIFY => "OP_NUMEQUALVERIFY",
            OpCodes::OP_NUMNOTEQUAL => "OP_NUMNOTEQUAL",
            OpCodes::OP_LESSTHAN => "OP_LESSTHAN",
            OpCodes::OP_GREATERTHAN => "OP_GREATERTHAN",
            OpCodes::OP_LESSTHANOREQUAL => "OP_LESSTHANOREQUAL",
            OpCodes::OP_GREATERTHANOREQUAL => "OP_GREATERTHANOREQUAL",
            OpCodes::OP_MIN => "OP_MIN",
            OpCodes::OP_MAX => "OP_MAX",
            OpCodes::OP_WITHIN => "OP_WITHIN",
            OpCodes::OP_SHA3 => "OP_SHA3",
            OpCodes::OP_HASH256 => "OP_HASH256",
            OpCodes::OP_HASH256V0 => "OP_HASH256V0",
            OpCodes::OP_HASH256TEMP => "OP_HASH256TEMP",
            OpCodes::OP_CHECKSIG => "OP_CHECKSIG",
            OpCodes::OP_CHECKSIGVERIFY => "OP_CHECKSIGVERIFY",
            OpCodes::OP_CHECKMULTISIG => "OP_CHECKMULTISIG",
            OpCodes::OP_CHECKMULTISIGVERIFY => "OP_CHECKMULTISIGVERIFY",
            OpCodes::OP_CREATE => "OP_CREATE",
        }
    }
}

/// Two opcodes with the same number are the same opcode.
pub proof fn lemma_ordinal_is_one_to_one(a: OpCodes, b: OpCodes)
    requires
        a.ordinal() == b.ordinal(),
    ensures
        a == b,
{
}

/// Whether `ordinal` is among the first `count` of `ordinals`.
spec fn listed(ordinals: Seq<u32>, count: int, ordinal: u32) -> bool {
    exists|k: int| 0 <= k < count && #[trigger] ordinals[k] == ordinal
}

impl FromName for OpCodes {
    fn all_names() -> (all: Vec<&'static str>) {
        let ordinals = OpCodes::all_ordinals();
        let mut all: Vec<&'static str> = Vec::new();
        let mut i: usize = 0;
        while i < ordinals.len()
            invariant
                i <= ordinals@.len(),
                forall|k: int|
                    0 <= k < ordinals@.len() ==> is_ordinal::<OpCodes>(#[trigger] ordinals@[k]),
                forall|op: OpCodes|
                    listed(ordinals@, i as int, op.ordinal()) ==> is_listed(all@, #[trigger] op.name()),
            decreases ordinals@.len() - i,
        {
            let ghost before = all@;
            match OpCodes::from_ordinal(ordinals[i]) {
                Ok(found) => {
                    all.push(found.to_name());
                    proof {
                        assert forall|op: OpCodes|
                            listed(ordinals@, i + 1, op.ordinal()) implies is_listed(
                            all@,
                            #[trigger] op.name(),
                        ) by {
                            if listed(ordinals@, i as int, op.ordinal()) {
                                assert(is_listed(before, op.name()));
                                let j = choose|j: int|
                                    0 <= j < before.len() && (#[trigger] before[j])@ == op.name();
                                assert(all@[j]@ == op.name());
                            } else {
                                let k = choose|k: int|
                                    0 <= k < i + 1 && #[trigger] ordinals@[k] == op.ordinal();
                                assert(k == i);
                                lemma_ordinal_is_one_to_one(found, op);
                                assert(all@[all@.len() - 1]@ == op.name());
                            }
                        }
                    }
                },
                Err(_) => {
                    assert(is_ordinal::<OpCodes>(ordinals@[i as int]));
                },
            }
            i += 1;
        }
        proof {
            assert forall|op: OpCodes| is_listed(all@, #[trigger] op.name()) by {
                assert(ordinals@.contains(op.ordinal()));
                let k = choose|k: int| 0 <= k < ordinals@.len() && ordinals@[k] == op.ordinal();
                assert(ordinals@[k] == op.ordinal());
                assert(listed(ordinals@, i as int, op.ordinal()));
            }
        }
        all
    }

    fn from_name(name: &str) -> (op: Result<Self, &str>) {
        let ordinals = OpCodes::all_ordinals();
        let mut i: usize = 0;
        while i < ordinals.len()
            invariant
                i <= ordinals@.len(),
                forall|k: int|
                    0 <= k < ordinals@.len() ==> is_ordinal::<OpCodes>(#[trigger] ordinals@[k]),
                forall|op: OpCodes|
                    listed(ordinals@, i as int, op.ordinal()) ==> #[trigger] op.name() != name@,
            decreases ordinals@.len() - i,
        {
            match OpCodes::from_ordinal(ordinals[i]) {
                Ok(found) => {
                    if same_text(found.to_name(), name) {
                        return Ok(found);
                    }
                    proof {
                        assert forall|op: OpCodes|
                            listed(
                                ordinals@,
                                i + 1,
                                op.ordinal(),
                            ) implies #[trigger] op.name() != name@ by {
                            if !listed(ordinals@, i as int, op.ordinal()) {
                                let k = choose|k: int|
                                    0 <= k < i + 1 && #[trigger] ordinals@[k] == op.ordinal();
                                assert(k == i);
                                lemma_ordinal_is_one_to_one(found, op);
                            }
                        }
                    }
                },
                Err(_) => {
                    assert(is_ordinal::<OpCodes>(ordinals@[i as int]));
                },
            }
            i += 1;
        }
        proof {
            assert forall|op: OpCodes| #[trigger] op.name() != name@ by {
                assert(ordinals@.contains(op.ordinal()));
                let k = choose|k: int| 0 <= k < ordinals@.len() && ordinals@[k] == op.ordinal();
                assert(ordinals@[k] == op.ordinal());
                assert(listed(ordinals@, i as int, op.ordinal()));
            }
        }
        Err(name)
    }
}

/// One entry of a script or of a stack.
#[derive(Debug)]
pub enum StackEntry {
    Op(OpCodes),
    Signature(Signature),
    PubKey(PublicKey),
    PubKeyHash(String),
    Num(usize),
    Bytes(String),
}

/// What a `StackEntry` holds, as a mathematical value: keys and signatures by
/// their bytes, text by its characters.
pub enum Value {
    Op(OpCodes),
    Signature(Seq<u8>),
    PubKey(Seq<u8>),
    PubKeyHash(Seq<char>),
    Num(usize),
    Bytes(Seq<char>),
}

impl Value {
    /// What the entry adds to the encoded size of a script.
    pub open spec fn size(self) -> nat {
        match self {
            Value::Op(_) => 1,
            Value::Signature(_) => ED25519_SIGNATURE_LEN as nat,
            Value::PubKey(_) => ED25519_PUBLIC_KEY_LEN as nat,
            Value::PubKeyHash(text) => byte_len(text),
            Value::Num(_) => (usize::BITS / 8) as nat,
            Value::Bytes(text) => byte_len(text),
        }
    }

    /// Whether a script may push the entry: an opcode is no data, and text is
    /// limited in size.
    pub open spec fn can_push(self) -> bool {
        match self {
            Value::Op(_) => false,
            Value::PubKeyHash(text) => byte_len(text) <= MAX_SCRIPT_ITEM_SIZE,
            Value::Bytes(text) => byte_len(text) <= MAX_SCRIPT_ITEM_SIZE,
            _ => true,
        }
    }
}

impl View for StackEntry {
    type V = Value;

    open spec fn view(&self) -> Value {
        match self {
            StackEntry::Op(op) => Value::Op(*op),
            StackEntry::Signature(sig) => Value::Signature(sig@),
            StackEntry::PubKey(key) => Value::PubKey(key@),
            StackEntry::PubKeyHash(text) => Value::PubKeyHash(text@),
            StackEntry::Num(n) => Value::Num(*n),
            StackEntry::Bytes(text) => Value::Bytes(text@),
        }
    }
}

/// The values of the entries of a stack or script, bottom first.
pub open spec fn values(entries: Seq<StackEntry>) -> Seq<Value> {
    entries.map_values(|e: StackEntry| e@)
}

impl Clone for StackEntry {
    fn clone(&self) -> (copy: Self)
        ensures
            copy == *self,
    {
        match self {
            StackEntry::Op(op) => StackEntry::Op(*op),
            StackEntry::Signature(sig) => StackEntry::Signature(*sig),
            StackEntry::PubKey(key) => StackEntry::PubKey(*key),
            StackEntry::PubKeyHash(text) => StackEntry::PubKeyHash(text.clone()),
            StackEntry::Num(n) => StackEntry::Num(*n),
            StackEntry::Bytes(text) => StackEntry::Bytes(text.clone()),
        }
    }
}

impl PartialEq for StackEntry {
    fn eq(&self, other: &Self) -> (same: bool) {
        match (self, other) {
            (StackEntry::Op(a), StackEntry::Op(b)) => *a == *b,
            (StackEntry::Signature(a), StackEntry::Signature(b)) => a.is_same(b),
            (StackEntry::PubKey(a), StackEntry::PubKey(b)) => a.is_same(b),
            (StackEntry::PubKeyHash(a), StackEntry::PubKeyHash(b)) => *a == *b,
            (StackEntry::Num(a), StackEntry::Num(b)) => *a == *b,
            (StackEntry::Bytes(a), StackEntry::Bytes(b)) => *a == *b,
            _ => {
                assert(self@ != other@);
                false
            },
        }
    }
}

impl Eq for StackEntry {

}

impl PartialEqSpecImpl for StackEntry {
    open spec fn obeys_eq_spec() -> bool {
        true
    }

    open spec fn eq_spec(&self, other: &Self) -> bool {
        self@ == other@
    }
}

} // verus!
