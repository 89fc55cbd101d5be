//! The interpreter of scripts, and the validation of transactions that is
//! built on it.

use crate::constants::{
    ED25519_PUBLIC_KEY_LEN, ED25519_SIGNATURE_LEN, MAX_METADATA_BYTES, MAX_OPS_PER_SCRIPT,
    MAX_SCRIPT_ITEM_SIZE, MAX_SCRIPT_SIZE, MAX_STACK_SIZE, NETWORK_VERSION_TEMP,
    NETWORK_VERSION_V0,
};
use crate::crypto::sign_ed25519::ed25519_valid;
use crate::primitives::asset::{Asset, AssetValues, AssetValuesView, AssetView, ItemAsset};
use crate::primitives::transaction::{
    tx_out_views, OutPoint, Transaction, TransactionView, TxInView, TxOut, TxOutView,
};
use crate::script::interface_ops;
use crate::script::lang::{pay2pkh_script, Script};
use crate::script::{values, OpCodes, StackEntry, Value};
use crate::utils::text::{byte_len, same_text, text_len};
use crate::utils::transaction_utils::{
    address_for, construct_p2sh_address, construct_tx_in_signable_asset_hash,
    construct_tx_in_signable_hash, lemma_address_length, p2sh_address, signable_asset_hash,
    signable_hash,
};
use vstd::prelude::*;

verus! {

/*---- LIMITS ----*/

/// The encoded size of a script: the sum of the sizes of its entries.
pub open spec fn script_size(script: Seq<Value>) -> nat
    decreases script.len(),
{
    if script.len() == 0 {
        0
    } else {
        script_size(script.drop_last()) + script.last().size()
    }
}

/// The number of opcodes in a script.
pub open spec fn op_count(script: Seq<Value>) -> nat
    decreases script.len(),
{
    if script.len() == 0 {
        0
    } else {
        op_count(script.drop_last()) + if script.last() is Op {
            1nat
        } else {
            0nat
        }
    }
}

/// Whether a script keeps the limits on its encoded size and on the number
/// of its opcodes.
pub open spec fn within_limits(script: Seq<Value>) -> bool {
    script_size(script) <= MAX_SCRIPT_SIZE && op_count(script) <= MAX_OPS_PER_SCRIPT
}

/// Size and opcode count only grow along a script.
proof fn lemma_limits_grow(script: Seq<Value>, i: int)
    requires
        0 <= i <= script.len(),
    ensures
        script_size(script.subrange(0, i)) <= script_size(script),
        op_count(script.subrange(0, i)) <= op_count(script),
    decreases script.len() - i,
{
    if i < script.len() {
        lemma_limits_grow(script, i + 1);
        assert(script.subrange(0, i + 1).drop_last() =~= script.subrange(0, i));
    } else {
        assert(script.subrange(0, i) =~= script);
    }
}

/// The encoded size of `entry`.
fn entry_size(entry: &StackEntry) -> (size: usize)
    ensures
        size == entry@.size(),
{
    match entry {
        StackEntry::Op(_) => 1,
        StackEntry::Signature(_) => ED25519_SIGNATURE_LEN,
        StackEntry::PubKey(_) => ED25519_PUBLIC_KEY_LEN,
        StackEntry::PubKeyHash(text) => text_len(text.as_str()),
        StackEntry::Num(_) => (usize::BITS / 8) as usize,
        StackEntry::Bytes(text) => text_len(text.as_str()),
    }
}

/// Whether `script` keeps the limits on its encoded size and on the number
/// of its opcodes.
pub fn is_valid_script(script: &Script) -> (valid: bool)
    ensures
        valid == within_limits(script@),
{
    let mut len: usize = 0;
    let mut ops_count: usize = 0;
    let mut i: usize = 0;
    assert(script@.subrange(0, 0) =~= Seq::<Value>::empty());
    while i < script.stack.len()
        invariant
            i <= script.stack@.len(),
            len == script_size(script@.subrange(0, i as int)),
            ops_count == op_count(script@.subrange(0, i as int)),
            len <= MAX_SCRIPT_SIZE,
            ops_count <= MAX_OPS_PER_SCRIPT,
        decreases script.stack@.len() - i,
    {
        let entry = &script.stack[i];
        let size: usize = entry_size(entry);
        let is_op: bool = match entry {
            StackEntry::Op(_) => true,
            _ => false,
        };
        proof {
            let next = script@.subrange(0, i + 1);
            assert(next.drop_last() =~= script@.subrange(0, i as int));
            assert(next.last() == entry@);
            lemma_limits_grow(script@, i + 1);
        }
        if size > MAX_SCRIPT_SIZE - len {
            return false;
        }
        len += size;
        if is_op {
            if ops_count >= MAX_OPS_PER_SCRIPT {
                return false;
            }
            ops_count += 1;
        }
        i += 1;
    }
    assert(script@.subrange(0, i as int) =~= script@);
    true
}

/// Whether the two stacks together keep the limit on their entries.
pub fn is_valid_stack(
    interpreter_stack: &Vec<StackEntry>,
    interpreter_alt_stack: &Vec<StackEntry>,
) -> (valid: bool)
    ensures
        valid == (interpreter_stack@.len() + interpreter_alt_stack@.len() <= MAX_STACK_SIZE),
{
    interpreter_stack.len() <= MAX_STACK_SIZE && interpreter_alt_stack.len() <= MAX_STACK_SIZE
        - interpreter_stack.len()
}

/// Pushes a copy of `stack_entry`, if a script may push it: opcodes are no
/// data, and text is limited in size.
pub fn push_entry_to_stack(
    stack_entry: &StackEntry,
    interpreter_stack: &mut Vec<StackEntry>,
) -> (ok: bool)
    ensures
        interface_ops::applies(
            ok,
            old(interpreter_stack)@,
            final(interpreter_stack)@,
            if stack_entry@.can_push() {
                Some(values(old(interpreter_stack)@).push(stack_entry@))
            } else {
                None
            },
        ),
{
    match stack_entry {
        StackEntry::Op(_) => {
            return false;
        },
        StackEntry::PubKeyHash(text) => {
            if text_len(text.as_str()) > MAX_SCRIPT_ITEM_SIZE {
                return false;
            }
        },
        StackEntry::Bytes(text) => {
            if text_len(text.as_str()) > MAX_SCRIPT_ITEM_SIZE {
                return false;
            }
        },
        _ => {},
    }
    interpreter_stack.push(stack_entry.clone());
    assert(values(interpreter_stack@) =~= values(old(interpreter_stack)@).push(stack_entry@));
    true
}

/*---- THE INTERPRETER ----*/

/// The state of the interpreter: the main stack and the alternate stack.
pub struct Stacks {
    pub main: Seq<Value>,
    pub alt: Seq<Value>,
}

impl Stacks {
    /// The state in which every script starts: both stacks empty.
    pub open spec fn empty() -> Stacks {
        Stacks { main: Seq::empty(), alt: Seq::empty() }
    }

    /// The state with the main stack replaced by what an operation on it
    /// gave, if it gave one.
    pub open spec fn with_main(self, main: Option<Seq<Value>>) -> Option<Stacks> {
        match main {
            Some(main) => Some(Stacks { main, ..self }),
            None => None,
        }
    }

    /// The state with both stacks replaced by what an operation on them
    /// gave, if it gave any.
    pub open spec fn with_both(both: Option<(Seq<Value>, Seq<Value>)>) -> Option<Stacks> {
        match both {
            Some((main, alt)) => Some(Stacks { main, alt }),
            None => None,
        }
    }
}

/// The number that a constant opcode pushes.
pub open spec fn constant_of(op: OpCodes) -> Option<usize> {
    match op {
        OpCodes::OP_0 => Some(0),
        OpCodes::OP_1 => Some(1),
        OpCodes::OP_2 => Some(2),
        OpCodes::OP_3 => Some(3),
        OpCodes::OP_4 => Some(4),
        OpCodes::OP_5 => Some(5),
        OpCodes::OP_6 => Some(6),
        OpCodes::OP_7 => Some(7),
        OpCodes::OP_8 => Some(8),
        OpCodes::OP_9 => Some(9),
        OpCodes::OP_10 => Some(10),
        OpCodes::OP_11 => Some(11),
        OpCodes::OP_12 => Some(12),
        OpCodes::OP_13 => Some(13),
        OpCodes::OP_14 => Some(14),
        OpCodes::OP_15 => Some(15),
        OpCodes::OP_16 => Some(16),
        _ => None,
    }
}

/// The state after the opcode `op` in the state `st`; none where the
/// operation fails.
#[verifier::opaque]
pub open spec fn execute(op: OpCodes, st: Stacks) -> Option<Stacks> {
    match op {
        OpCodes::OP_0
        | OpCodes::OP_1
        | OpCodes::OP_2
        | OpCodes::OP_3
        | OpCodes::OP_4
        | OpCodes::OP_5
        | OpCodes::OP_6
        | OpCodes::OP_7
        | OpCodes::OP_8
        | OpCodes::OP_9
        | OpCodes::OP_10
        | OpCodes::OP_11
        | OpCodes::OP_12
        | OpCodes::OP_13
        | OpCodes::OP_14
        | OpCodes::OP_15
        | OpCodes::OP_16 => st.with_main(interface_ops::op_const_spec(st.main, constant_of(op)->0)),
        OpCodes::OP_NOP => st.with_main(interface_ops::op_nop_spec(st.main)),
        OpCodes::OP_VERIFY => st.with_main(interface_ops::op_verify_spec(st.main)),
        OpCodes::OP_RETURN => st.with_main(interface_ops::op_return_spec(st.main)),
        OpCodes::OP_TOALTSTACK => Stacks::with_both(
            interface_ops::toaltstack_spec(st.main, st.alt),
        ),
        OpCodes::OP_FROMALTSTACK => Stacks::with_both(
            interface_ops::fromaltstack_spec(st.main, st.alt),
        ),
        OpCodes::OP_2DROP => st.with_main(interface_ops::op_2drop_spec(st.main)),
        OpCodes::OP_2DUP => st.with_main(interface_ops::op_2dup_spec(st.main)),
        OpCodes::OP_3DUP => st.with_main(interface_ops::op_3dup_spec(st.main)),
        OpCodes::OP_2OVER => st.with_main(interface_ops::op_2over_spec(st.main)),
        OpCodes::OP_2ROT => st.with_main(interface_ops::op_2rot_spec(st.main)),
        OpCodes::OP_2SWAP => st.with_main(interface_ops::op_2swap_spec(st.main)),
        OpCodes::OP_IFDUP => st.with_main(interface_ops::op_ifdup_spec(st.main)),
        OpCodes::OP_DEPTH => st.with_main(interface_ops::op_depth_spec(st.main)),
        OpCodes::OP_DROP => st.with_main(interface_ops::op_drop_spec(st.main)),
        OpCodes::OP_DUP => st.with_main(interface_ops::op_dup_spec(st.main)),
        OpCodes::OP_NIP => st.with_main(interface_ops::op_nip_spec(st.main)),
        OpCodes::OP_OVER => st.with_main(interface_ops::op_over_spec(st.main)),
        OpCodes::OP_PICK => st.with_main(interface_ops::op_pick_spec(st.main)),
        OpCodes::OP_ROLL => st.with_main(interface_ops::op_roll_spec(st.main)),
        OpCodes::OP_ROT => st.with_main(interface_ops::op_rot_spec(st.main)),
        OpCodes::OP_SWAP => st.with_main(interface_ops::op_swap_spec(st.main)),
        OpCodes::OP_TUCK => st.with_main(interface_ops::op_tuck_spec(st.main)),
        OpCodes::OP_CAT => st.with_main(interface_ops::op_cat_spec(st.main)),
        OpCodes::OP_SUBSTR => st.with_main(interface_ops::op_substr_spec(st.main)),
        OpCodes::OP_LEFT => st.with_main(interface_ops::op_left_spec(st.main)),
        OpCodes::OP_RIGHT => st.with_main(interface_ops::op_right_spec(st.main)),
        OpCodes::OP_SIZE => st.with_main(interface_ops::op_size_spec(st.main)),
        OpCodes::OP_INVERT => st.with_main(interface_ops::op_invert_spec(st.main)),
        OpCodes::OP_AND => st.with_main(interface_ops::op_and_spec(st.main)),
        OpCodes::OP_OR => st.with_main(interface_ops::op_or_spec(st.main)),
        OpCodes::OP_XOR => st.with_main(interface_ops::op_xor_spec(st.main)),
        OpCodes::OP_EQUAL => st.with_main(interface_ops::op_equal_spec(st.main)),
        OpCodes::OP_EQUALVERIFY => st.with_main(interface_ops::op_equalverify_spec(st.main)),
        OpCodes::OP_1ADD => st.with_main(interface_ops::op_1add_spec(st.main)),
        OpCodes::OP_1SUB => st.with_main(interface_ops::op_1sub_spec(st.main)),
        OpCodes::OP_2MUL => st.with_main(interface_ops::op_2mul_spec(st.main)),
        OpCodes::OP_2DIV => st.with_main(interface_ops::op_2div_spec(st.main)),
        OpCodes::OP_NOT => st.with_main(interface_ops::op_not_spec(st.main)),
        OpCodes::OP_0NOTEQUAL => st.with_main(interface_ops::op_0notequal_spec(st.main)),
        OpCodes::OP_ADD => st.with_main(interface_ops::op_add_spec(st.main)),
        OpCodes::OP_SUB => st.with_main(interface_ops::op_sub_spec(st.main)),
        OpCodes::OP_MUL => st.with_main(interface_ops::op_mul_spec(st.main)),
        OpCodes::OP_DIV => st.with_main(interface_ops::op_div_spec(st.main)),
        OpCodes::OP_MOD => st.with_main(interface_ops::op_mod_spec(st.main)),
        OpCodes::OP_LSHIFT => st.with_main(interface_ops::op_lshift_spec(st.main)),
        OpCodes::OP_RSHIFT => st.with_main(interface_ops::op_rshift_spec(st.main)),
        OpCodes::OP_BOOLAND => st.with_main(interface_ops::op_booland_spec(st.main)),
        OpCodes::OP_BOOLOR => st.with_main(interface_ops::op_boolor_spec(st.main)),
        OpCodes::OP_NUMEQUAL => st.with_main(interface_ops::op_numequal_spec(st.main)),
        OpCodes::OP_NUMEQUALVERIFY => st.with_main(interface_ops::op_numequalverify_spec(st.main)),
        OpCodes::OP_NUMNOTEQUAL => st.with_main(interface_ops::op_numnotequal_spec(st.main)),
        OpCodes::OP_LESSTHAN => st.with_main(interface_ops::op_lessthan_spec(st.main)),
        OpCodes::OP_GREATERTHAN => st.with_main(interface_ops::op_greaterthan_spec(st.main)),
        OpCodes::OP_LESSTHANOREQUAL => st.with_main(
            interface_ops::op_lessthanorequal_spec(st.main),
        ),
        OpCodes::OP_GREATERTHANOREQUAL => st.with_main(
            interface_ops::op_greaterthanorequal_spec(st.main),
        ),
        OpCodes::OP_MIN => st.with_main(interface_ops::op_min_spec(st.main)),
        OpCodes::OP_MAX => st.with_main(interface_ops::op_max_spec(st.main)),
        OpCodes::OP_WITHIN => st.with_main(interface_ops::op_within_spec(st.main)),
        OpCodes::OP_SHA3 => st.with_main(interface_ops::op_sha3_spec(st.main)),
        OpCodes::OP_HASH256 => st.with_main(interface_ops::op_hash256_spec(st.main, None)),
        OpCodes::OP_HASH256V0 => st.with_main(
            interface_ops::op_hash256_spec(st.main, Some(NETWORK_VERSION_V0)),
        ),
        OpCodes::OP_HASH256TEMP => st.with_main(
            interface_ops::op_hash256_spec(st.main, Some(NETWORK_VERSION_TEMP)),
        ),
        OpCodes::OP_CHECKSIG => st.with_main(interface_ops::op_checksig_spec(st.main)),
        OpCodes::OP_CHECKSIGVERIFY => st.with_main(interface_ops::op_checksig_spec(st.main)),
        OpCodes::OP_CHECKMULTISIG => st.with_main(interface_ops::op_multisig_spec(st.main)),
        OpCodes::OP_CHECKMULTISIGVERIFY => st.with_main(interface_ops::op_multisig_spec(st.main)),
        OpCodes::OP_CREATE => Some(st),
    }
}

/// The state after the entry `entry` of a script in the state `st`: an
/// opcode is executed, anything else is pushed; none where that fails.
pub open spec fn step(entry: Value, st: Stacks) -> Option<Stacks> {
    match entry {
        Value::Op(op) => execute(op, st),
        _ => if entry.can_push() {
            Some(Stacks { main: st.main.push(entry), ..st })
        } else {
            None
        },
    }
}

/// The state after the entries of `script`, one after the other, from the
/// state `st`. Before each entry the two stacks together have to keep the
/// limit on their entries; none where they do not, or where an entry fails.
pub open spec fn run(script: Seq<Value>, st: Stacks) -> Option<Stacks>
    decreases script.len(),
{
    if script.len() == 0 {
        Some(st)
    } else if st.main.len() + st.alt.len() > MAX_STACK_SIZE {
        None
    } else {
        match step(script[0], st) {
            Some(next) => run(script.drop_first(), next),
            None => None,
        }
    }
}

/// Whether a script interprets to true: it keeps the limits on scripts,
/// every entry of it succeeds, and it does not leave the number zero on top
/// of the main stack.
pub open spec fn interprets(script: Seq<Value>) -> bool {
    within_limits(script) && match run(script, Stacks::empty()) {
        Some(st) => st.main.len() == 0 || st.main.last() != Value::Num(0),
        None => false,
    }
}

/// The number that the constant opcode `op` pushes.
fn constant(op: OpCodes) -> (n: Option<usize>)
    ensures
        n == constant_of(op),
{
    match op {
        OpCodes::OP_0 => Some(0),
        OpCodes::OP_1 => Some(1),
        OpCodes::OP_2 => Some(2),
        OpCodes::OP_3 => Some(3),
        OpCodes::OP_4 => Some(4),
        OpCodes::OP_5 => Some(5),
        OpCodes::OP_6 => Some(6),
        OpCodes::OP_7 => Some(7),
        OpCodes::OP_8 => Some(8),
        OpCodes::OP_9 => Some(9),
        OpCodes::OP_10 => Some(10),
        OpCodes::OP_11 => Some(11),
        OpCodes::OP_12 => Some(12),
        OpCodes::OP_13 => Some(13),
        OpCodes::OP_14 => Some(14),
        OpCodes::OP_15 => Some(15),
        OpCodes::OP_16 => Some(16),
        _ => None,
    }
}

/// What a call of a step of the interpreter has to come to: where the
/// specification gives a state, the step succeeds and leaves that state.
pub open spec fn steps_to(
    ok: bool,
    main: Seq<StackEntry>,
    alt: Seq<StackEntry>,
    expected: Option<Stacks>,
) -> bool {
    match expected {
        Some(st) => ok && values(main) == st.main && values(alt) == st.alt,
        None => !ok,
    }
}

/// Executes the opcode `op` on the two stacks.
pub fn execute_op(op: OpCodes, main: &mut Vec<StackEntry>, alt: &mut Vec<StackEntry>) -> (ok: bool)
    ensures
        steps_to(
            ok,
            final(main)@,
            final(alt)@,
            execute(op, Stacks { main: values(old(main)@), alt: values(old(alt)@) }),
        ),
{
    reveal(execute);
    match op {
        OpCodes::OP_NOP => interface_ops::op_nop(main),
        OpCodes::OP_VERIFY => interface_ops::op_verify(main),
        OpCodes::OP_RETURN => interface_ops::op_return(main),
        OpCodes::OP_TOALTSTACK => interface_ops::op_toaltstack(main, alt),
        OpCodes::OP_FROMALTSTACK => interface_ops::op_fromaltstack(main, alt),
        OpCodes::OP_2DROP => interface_ops::op_2drop(main),
        OpCodes::OP_2DUP => interface_ops::op_2dup(main),
        OpCodes::OP_3DUP => interface_ops::op_3dup(main),
        OpCodes::OP_2OVER => interface_ops::op_2over(main),
        OpCodes::OP_2ROT => interface_ops::op_2rot(main),
        OpCodes::OP_2SWAP => interface_ops::op_2swap(main),
        OpCodes::OP_IFDUP => interface_ops::op_ifdup(main),
        OpCodes::OP_DEPTH => interface_ops::op_depth(main),
        OpCodes::OP_DROP => interface_ops::op_drop(main),
        OpCodes::OP_DUP => interface_ops::op_dup(main),
        OpCodes::OP_NIP => interface_ops::op_nip(main),
        OpCodes::OP_OVER => interface_ops::op_over(main),
        OpCodes::OP_PICK => interface_ops::op_pick(main),
        OpCodes::OP_ROLL => interface_ops::op_roll(main),
        OpCodes::OP_ROT => interface_ops::op_rot(main),
        OpCodes::OP_SWAP => interface_ops::op_swap(main),
        OpCodes::OP_TUCK => interface_ops::op_tuck(main),
        OpCodes::OP_CAT => interface_ops::op_cat(main),
        OpCodes::OP_SUBSTR => interface_ops::op_substr(main),
        OpCodes::OP_LEFT => interface_ops::op_left(main),
        OpCodes::OP_RIGHT => interface_ops::op_right(main),
        OpCodes::OP_SIZE => interface_ops::op_size(main),
        OpCodes::OP_INVERT => interface_ops::op_invert(main),
        OpCodes::OP_AND => interface_ops::op_and(main),
        OpCodes::OP_OR => interface_ops::op_or(main),
        OpCodes::OP_XOR => interface_ops::op_xor(main),
        OpCodes::OP_EQUAL => interface_ops::op_equal(main),
        OpCodes::OP_EQUALVERIFY => interface_ops::op_equalverify(main),
        OpCodes::OP_1ADD => interface_ops::op_1add(main),
        OpCodes::OP_1SUB => interface_ops::op_1sub(main),
        OpCodes::OP_2MUL => interface_ops::op_2mul(main),
        OpCodes::OP_2DIV => interface_ops::op_2div(main),
        OpCodes::OP_NOT => interface_ops::op_not(main),
        OpCodes::OP_0NOTEQUAL => interface_ops::op_0notequal(main),
        OpCodes::OP_ADD => interface_ops::op_add(main),
        OpCodes::OP_SUB => interface_ops::op_sub(main),
        OpCodes::OP_MUL => interface_ops::op_mul(main),
        OpCodes::OP_DIV => interface_ops::op_div(main),
        OpCodes::OP_MOD => interface_ops::op_mod(main),
        OpCodes::OP_LSHIFT => interface_ops::op_lshift(main),
        OpCodes::OP_RSHIFT => interface_ops::op_rshift(main),
        OpCodes::OP_BOOLAND => interface_ops::op_booland(main),
        OpCodes::OP_BOOLOR => interface_ops::op_boolor(main),
        OpCodes::OP_NUMEQUAL => interface_ops::op_numequal(main),
        OpCodes::OP_NUMEQUALVERIFY => interface_ops::op_numequalverify(main),
        OpCodes::OP_NUMNOTEQUAL => interface_ops::op_numnotequal(main),
        OpCodes::OP_LESSTHAN => interface_ops::op_lessthan(main),
        OpCodes::OP_GREATERTHAN => interface_ops::op_greaterthan(main),
        OpCodes::OP_LESSTHANOREQUAL => interface_ops::op_lessthanorequal(main),
        OpCodes::OP_GREATERTHANOREQUAL => interface_ops::op_greaterthanorequal(main),
        OpCodes::OP_MIN => interface_ops::op_min(main),
        OpCodes::OP_MAX => interface_ops::op_max(main),
        OpCodes::OP_WITHIN => interface_ops::op_within(main),
        OpCodes::OP_SHA3 => interface_ops::op_sha3(main),
        OpCodes::OP_HASH256 => interface_ops::op_hash256(main, None),
        OpCodes::OP_HASH256V0 => interface_ops::op_hash256(main, Some(NETWORK_VERSION_V0)),
        OpCodes::OP_HASH256TEMP => interface_ops::op_hash256(main, Some(NETWORK_VERSION_TEMP)),
        OpCodes::OP_CHECKSIG => interface_ops::op_checksig(main),
        OpCodes::OP_CHECKSIGVERIFY => interface_ops::op_checksig(main),
        OpCodes::OP_CHECKMULTISIG => interface_ops::op_multisig(main),
        OpCodes::OP_CHECKMULTISIGVERIFY => interface_ops::op_multisig(main),
        OpCodes::OP_CREATE => true,
        _ => match constant(op) {
            Some(n) => interface_ops::op_const(main, n),
            None => false,
        },
    }
}

/// Whether `script` interprets to true.
pub fn interpret_script(script: &Script) -> (ok: bool)
    ensures
        ok == interprets(script@),
        ok ==> script_size(script@) <= MAX_SCRIPT_SIZE && op_count(script@) <= MAX_OPS_PER_SCRIPT,
{
    if !is_valid_script(script) {
        return false;
    }
    let mut interpreter_stack: Vec<StackEntry> = Vec::new();
    let mut interpreter_alt_stack: Vec<StackEntry> = Vec::new();
    let mut i: usize = 0;
    assert(script@.skip(0) =~= script@);
    assert(values(interpreter_stack@) =~= Seq::<Value>::empty());
    assert(values(interpreter_alt_stack@) =~= Seq::<Value>::empty());
    while i < script.stack.len()
        invariant
            i <= script.stack@.len(),
            run(script@, Stacks::empty()) == run(
                script@.skip(i as int),
                Stacks {
                    main: values(interpreter_stack@),
                    alt: values(interpreter_alt_stack@),
                },
            ),
        decreases script.stack@.len() - i,
    {
        proof {
            assert(script@.skip(i as int)[0] == script.stack@[i as int]@);
            assert(script@.skip(i as int).drop_first() =~= script@.skip(i + 1));
        }
        if !is_valid_stack(&interpreter_stack, &interpreter_alt_stack) {
            return false;
        }
        let entry = &script.stack[i];
        let ok: bool = match entry {
            StackEntry::Op(op) => {
                execute_op(*op, &mut interpreter_stack, &mut interpreter_alt_stack)
            },
            _ => push_entry_to_stack(entry, &mut interpreter_stack),
        };
        if !ok {
            return false;
        }
        i += 1;
    }
    let len: usize = interpreter_stack.len();
    if len == 0 {
        return true;
    }
    match &interpreter_stack[len - 1] {
        StackEntry::Num(n) => *n != 0,
        _ => true,
    }
}

/*---- SCRIPTS OF KNOWN SHAPE ----*/

/// Whether `v` is one of the opcodes that derive an address from a key.
pub open spec fn is_hash_op(v: Value) -> bool {
    v == Value::Op(OpCodes::OP_HASH256) || v == Value::Op(OpCodes::OP_HASH256V0) || v == Value::Op(
        OpCodes::OP_HASH256TEMP,
    )
}

/// Whether a script has the shape of one that spends by a signature under
/// the address of a key.
pub open spec fn is_p2pkh_shape(script: Seq<Value>) -> bool {
    &&& script.len() == 8
    &&& script[0] is Bytes
    &&& script[1] is Signature
    &&& script[2] is PubKey
    &&& script[3] == Value::Op(OpCodes::OP_DUP)
    &&& is_hash_op(script[4])
    &&& script[5] is PubKeyHash
    &&& script[6] == Value::Op(OpCodes::OP_EQUALVERIFY)
    &&& script[7] == Value::Op(OpCodes::OP_CHECKSIG)
}

/// Whether `script` unlocks an output locked to `address` by a signature of
/// `outpoint_hash`: it has the shape for that, names that address and that
/// hash, and interprets to true.
pub open spec fn valid_p2pkh_sig(
    script: Seq<Value>,
    outpoint_hash: Seq<char>,
    address: Seq<char>,
) -> bool {
    &&& is_p2pkh_shape(script)
    &&& script[5]->PubKeyHash_0 == address
    &&& script[0]->Bytes_0 == outpoint_hash
    &&& interprets(script)
}

/// Whether `script` unlocks an output locked to the address `address` of a
/// script: it has that address, and interprets to true.
pub open spec fn valid_p2sh_script(script: Seq<Value>, address: Seq<char>) -> bool {
    p2sh_address(script) == address && interprets(script)
}

/// Whether a script has the shape of one that creates an asset.
pub open spec fn is_create_shape(script: Seq<Value>) -> bool {
    &&& script.len() == 7
    &&& script[0] == Value::Op(OpCodes::OP_CREATE)
    &&& script[1] is Num
    &&& script[2] == Value::Op(OpCodes::OP_DROP)
    &&& script[3] is Bytes
    &&& script[4] is Signature
    &&& script[5] is PubKey
    &&& script[6] == Value::Op(OpCodes::OP_CHECKSIG)
}

/// Whether the metadata of an asset, if it has any, keeps the limit on its
/// size.
pub open spec fn valid_metadata_size(asset: AssetView) -> bool {
    match asset {
        AssetView::Item(item) => match item.metadata {
            Some(metadata) => byte_len(metadata) <= MAX_METADATA_BYTES,
            None => true,
        },
        AssetView::Token(_) => true,
    }
}

/// Whether `script` creates `asset`: the metadata of the asset keeps its
/// limit, and the script has the shape for creation, signs the hash of the
/// asset, and interprets to true.
pub open spec fn valid_create_script(script: Seq<Value>, asset: AssetView) -> bool {
    &&& valid_metadata_size(asset)
    &&& is_create_shape(script)
    &&& script[3]->Bytes_0 == signable_asset_hash(asset)
    &&& interprets(script)
}

/// Whether `entry` is the opcode `op`.
fn is_op(entry: &StackEntry, op: OpCodes) -> (yes: bool)
    ensures
        yes == (entry@ == Value::Op(op)),
{
    match entry {
        StackEntry::Op(found) => *found == op,
        _ => false,
    }
}

/// Whether the metadata of `item`, if it has any, keeps the limit on its
/// size.
pub fn item_has_valid_size(item: &ItemAsset) -> (valid: bool)
    ensures
        valid == valid_metadata_size(AssetView::Item(item@)),
{
    match &item.metadata {
        Some(metadata) => text_len(metadata.as_str()) <= MAX_METADATA_BYTES,
        None => true,
    }
}

/// Whether an address has one of the two lengths that addresses have.
pub open spec fn valid_address_length(address: Seq<char>) -> bool {
    byte_len(address) == 32 || byte_len(address) == 64
}

/// Whether `address` has one of the two lengths that addresses have.
pub fn address_has_valid_length(address: &str) -> (valid: bool)
    ensures
        valid == valid_address_length(address@),
{
    let len: usize = text_len(address);
    len == 32 || len == 64
}

/// Whether `script` creates `asset`.
pub fn tx_has_valid_create_script(script: &Script, asset: &Asset) -> (valid: bool)
    ensures
        valid == valid_create_script(script@, asset@),
{
    let asset_hash = construct_tx_in_signable_asset_hash(asset);
    match asset {
        Asset::Item(item) => {
            if !item_has_valid_size(item) {
                return false;
            }
        },
        _ => {},
    }
    let stack = &script.stack;
    if stack.len() != 7 {
        return false;
    }
    match (&stack[1], &stack[3], &stack[4], &stack[5]) {
        (
            StackEntry::Num(_),
            StackEntry::Bytes(b),
            StackEntry::Signature(_),
            StackEntry::PubKey(_),
        ) => {
            is_op(&stack[0], OpCodes::OP_CREATE) && is_op(&stack[2], OpCodes::OP_DROP) && is_op(
                &stack[6],
                OpCodes::OP_CHECKSIG,
            ) && same_text(b.as_str(), asset_hash.as_str()) && interpret_script(script)
        },
        _ => false,
    }
}

/// Whether `script` unlocks an output locked to the address
/// `tx_out_pub_key` by a signature of `outpoint_hash`.
pub fn tx_has_valid_p2pkh_sig(
    script: &Script,
    outpoint_hash: &str,
    tx_out_pub_key: &str,
) -> (valid: bool)
    ensures
        valid == valid_p2pkh_sig(script@, outpoint_hash@, tx_out_pub_key@),
{
    let stack = &script.stack;
    if stack.len() != 8 {
        return false;
    }
    match (&stack[0], &stack[1], &stack[2], &stack[5]) {
        (
            StackEntry::Bytes(b),
            StackEntry::Signature(_),
            StackEntry::PubKey(_),
            StackEntry::PubKeyHash(h),
        ) => {
            is_op(&stack[3], OpCodes::OP_DUP) && (is_op(&stack[4], OpCodes::OP_HASH256) || is_op(
                &stack[4],
                OpCodes::OP_HASH256V0,
            ) || is_op(&stack[4], OpCodes::OP_HASH256TEMP)) && is_op(
                &stack[6],
                OpCodes::OP_EQUALVERIFY,
            ) && is_op(&stack[7], OpCodes::OP_CHECKSIG) && same_text(h.as_str(), tx_out_pub_key)
                && same_text(b.as_str(), outpoint_hash) && interpret_script(script)
        },
        _ => false,
    }
}

/// Whether `script` unlocks an output locked to the address `address` of a
/// script.
pub fn tx_has_valid_p2sh_script(script: &Script, address: &str) -> (valid: bool)
    ensures
        valid == valid_p2sh_script(script@, address@),
{
    let p2sh_address = construct_p2sh_address(script);
    if same_text(p2sh_address.as_str(), address) {
        return interpret_script(script);
    }
    false
}

/// Whether a transaction creates an asset validly: it is one that creates,
/// and the script of its input creates the asset of its output.
pub open spec fn create_tx_valid(tx: TransactionView) -> bool {
    match tx.create_asset() {
        Some(asset) => valid_create_script(tx.inputs[0].script_signature, asset),
        None => false,
    }
}

/// Whether `tx` creates an asset validly.
pub fn create_tx_is_valid(tx: &Transaction) -> (valid: bool)
    ensures
        valid == create_tx_valid(tx@),
{
    match tx.get_create_asset() {
        Some(asset) => {
            assert(tx@.inputs[0] == tx.inputs@[0]@);
            tx_has_valid_create_script(&tx.inputs[0].script_signature, asset)
        },
        None => false,
    }
}

/*---- TRANSACTIONS ----*/

/// The assets of some outputs, in their order.
pub open spec fn output_values(outputs: Seq<TxOutView>) -> Seq<AssetView> {
    outputs.map_values(|output: TxOutView| output.value)
}

/// The sums of the assets of some outputs, if every one of them can be
/// added.
pub open spec fn sum_of_outputs(outputs: Seq<TxOutView>) -> Option<AssetValuesView> {
    AssetValuesView::zero().plus_all(output_values(outputs))
}

/// Whether some outputs are valid for inputs that bring in `spent`: every
/// address has a valid length, and the outputs hold just what was brought in.
pub open spec fn valid_outs(outputs: Seq<TxOutView>, spent: AssetValuesView) -> bool {
    &&& forall|i: int|
        0 <= i < outputs.len() && (#[trigger] outputs[i]).script_public_key is Some
            ==> valid_address_length(outputs[i].script_public_key->0)
    &&& sum_of_outputs(outputs) == Some(spent)
}

/// Whether an input unlocks the output `spent` that was found for it: the
/// input names an output, the output was found and is locked to an address,
/// and the script of the input unlocks that address, by a signature of the
/// place of the output or as the script that the address is the hash of.
pub open spec fn input_unlocks(tx_in: TxInView, spent: Option<TxOutView>) -> bool {
    &&& tx_in.previous_out is Some
    &&& spent is Some
    &&& spent->0.script_public_key is Some
    &&& (valid_p2pkh_sig(
        tx_in.script_signature,
        signable_hash(tx_in.previous_out->0),
        spent->0.script_public_key->0,
    ) || valid_p2sh_script(tx_in.script_signature, spent->0.script_public_key->0))
}

/// The asset that an input brings in from the output `spent`: an item
/// without a genesis hash gets the hash of the transaction of the output.
pub open spec fn spent_asset(tx_in: TxInView, spent: Option<TxOutView>) -> AssetView {
    spent->0.value.with_fixed_hash(tx_in.previous_out->0.t_hash)
}

/// The assets that some inputs bring in from the outputs found for them.
pub open spec fn spent_assets(inputs: Seq<TxInView>, spent: Seq<Option<TxOutView>>) -> Seq<
    AssetView,
> {
    Seq::new(inputs.len(), |i: int| spent_asset(inputs[i], spent[i]))
}

/// The sums of the assets that the inputs bring in, if every one of them can
/// be added.
pub open spec fn sum_of_inputs(inputs: Seq<TxInView>, spent: Seq<Option<TxOutView>>) -> Option<
    AssetValuesView,
> {
    AssetValuesView::zero().plus_all(spent_assets(inputs, spent))
}

/// Whether a transaction is valid, where `spent` holds for each input the
/// unspent output that it names, if there is one: no output is an item that
/// lacks a genesis hash or carries metadata, every input unlocks its output,
/// and the outputs are valid for what the inputs bring in.
pub open spec fn tx_valid(tx: TransactionView, spent: Seq<Option<TxOutView>>) -> bool {
    &&& spent.len() == tx.inputs.len()
    &&& forall|i: int|
        0 <= i < tx.outputs.len() ==> (#[trigger] tx.outputs[i]).value.may_be_spent_to()
    &&& forall|i: int| 0 <= i < tx.inputs.len() ==> input_unlocks(#[trigger] tx.inputs[i], spent[i])
    &&& match sum_of_inputs(tx.inputs, spent) {
        Some(sums) => valid_outs(tx.outputs, sums),
        None => false,
    }
}

/// Whether one of the outputs of a transaction is an item that carries
/// metadata.
pub open spec fn has_item_output_with_metadata(tx: TransactionView) -> bool {
    exists|i: int|
        0 <= i < tx.outputs.len() && (#[trigger] tx.outputs[i]).value is Item
            && tx.outputs[i].value->Item_0.metadata is Some
}

/// Where some of the assets cannot be added, all of them cannot.
proof fn lemma_plus_all_fails_on(start: AssetValuesView, assets: Seq<AssetView>, i: int)
    requires
        0 <= i <= assets.len(),
        start.plus_all(assets.subrange(0, i)) is None,
    ensures
        start.plus_all(assets) is None,
    decreases assets.len() - i,
{
    if i < assets.len() {
        assert(assets.subrange(0, i + 1).drop_last() =~= assets.subrange(0, i));
        lemma_plus_all_fails_on(start, assets, i + 1);
    } else {
        assert(assets.subrange(0, i) =~= assets);
    }
}

/// Whether `tx_outs` are valid for inputs that bring in `tx_ins_spent`.
pub fn tx_outs_are_valid(tx_outs: &[TxOut], tx_ins_spent: AssetValues) -> (valid: bool)
    requires
        tx_ins_spent.wf(),
    ensures
        valid == valid_outs(tx_out_views(tx_outs@), tx_ins_spent@),
{
    let ghost outputs = tx_out_views(tx_outs@);
    let ghost assets = output_values(outputs);
    let mut tx_outs_spent: AssetValues = AssetValues::default();
    let mut i: usize = 0;
    assert(assets.subrange(0, 0) =~= Seq::<AssetView>::empty());
    while i < tx_outs.len()
        invariant
            i <= tx_outs@.len(),
            outputs == tx_out_views(tx_outs@),
            assets == output_values(outputs),
            tx_outs_spent.wf(),
            AssetValuesView::zero().plus_all(assets.subrange(0, i as int)) == Some(tx_outs_spent@),
            forall|k: int|
                0 <= k < i && (#[trigger] outputs[k]).script_public_key is Some
                    ==> valid_address_length(outputs[k].script_public_key->0),
        decreases tx_outs@.len() - i,
    {
        let tx_out = &tx_outs[i];
        assert(outputs[i as int] == tx_out@);
        match &tx_out.script_public_key {
            Some(addr) => {
                if !address_has_valid_length(addr.as_str()) {
                    return false;
                }
            },
            None => {},
        }
        proof {
            assert(assets.subrange(0, i + 1).drop_last() =~= assets.subrange(0, i as int));
            assert(assets.subrange(0, i + 1).last() == tx_out@.value);
        }
        if !tx_outs_spent.update_add(&tx_out.value) {
            proof {
                lemma_plus_all_fails_on(AssetValuesView::zero(), assets, i + 1);
            }
            return false;
        }
        i += 1;
    }
    assert(assets.subrange(0, i as int) =~= assets);
    tx_outs_spent.is_equal(&tx_ins_spent)
}

/// The views of the outputs found for some inputs.
pub open spec fn found_views(spent: Seq<Option<&TxOut>>) -> Seq<Option<TxOutView>> {
    spent.map_values(
        |found: Option<&TxOut>|
            match found {
                Some(tx_out) => Some(tx_out@),
                None => None,
            },
    )
}

/// Whether no output of `tx` is an item that lacks a genesis hash or
/// carries metadata.
fn outputs_may_be_spent_to(tx: &Transaction) -> (yes: bool)
    ensures
        yes == forall|i: int|
            0 <= i < tx@.outputs.len() ==> (#[trigger] tx@.outputs[i]).value.may_be_spent_to(),
{
    let mut i: usize = 0;
    while i < tx.outputs.len()
        invariant
            i <= tx.outputs@.len(),
            forall|k: int| 0 <= k < i ==> (#[trigger] tx@.outputs[k]).value.may_be_spent_to(),
        decreases tx.outputs@.len() - i,
    {
        let value = &tx.outputs[i].value;
        assert(tx@.outputs[i as int].value == value@);
        if value.is_item() && (value.get_genesis_hash().is_none()
            || value.get_metadata().is_some()) {
            return false;
        }
        i += 1;
    }
    true
}

/// Whether `tx` is valid, where `spent` holds for each input the unspent
/// output that it names, if there is one.
pub fn tx_is_valid_spending(tx: &Transaction, spent: &Vec<Option<&TxOut>>) -> (valid: bool)
    ensures
        valid == tx_valid(tx@, found_views(spent@)),
        valid ==> sum_of_inputs(tx@.inputs, found_views(spent@)) == sum_of_outputs(tx@.outputs),
        has_item_output_with_metadata(tx@) ==> !valid,
{
    let ghost found = found_views(spent@);
    let ghost assets = spent_assets(tx@.inputs, found);
    proof {
        if has_item_output_with_metadata(tx@) {
            lemma_item_output_with_metadata_is_invalid(tx@, found);
        }
    }
    if spent.len() != tx.inputs.len() {
        return false;
    }
    if !outputs_may_be_spent_to(tx) {
        return false;
    }
    let mut tx_ins_spent: AssetValues = AssetValues::default();
    let mut i: usize = 0;
    assert(assets.subrange(0, 0) =~= Seq::<AssetView>::empty());
    while i < tx.inputs.len()
        invariant
            i <= tx.inputs@.len(),
            spent@.len() == tx.inputs@.len(),
            found == found_views(spent@),
            assets == spent_assets(tx@.inputs, found),
            tx_ins_spent.wf(),
            AssetValuesView::zero().plus_all(assets.subrange(0, i as int)) == Some(tx_ins_spent@),
            forall|k: int| 0 <= k < i ==> input_unlocks(#[trigger] tx@.inputs[k], found[k]),
        decreases tx.inputs@.len() - i,
    {
        let tx_in = &tx.inputs[i];
        assert(tx@.inputs[i as int] == tx_in@);
        let tx_out_point = match &tx_in.previous_out {
            Some(out_point) => out_point,
            None => {
                return false;
            },
        };
        let tx_out = match &spent[i] {
            Some(tx_out) => *tx_out,
            None => {
                return false;
            },
        };
        assert(found[i as int] == Some(tx_out@));
        let tx_out_hash = construct_tx_in_signable_hash(tx_out_point);
        match &tx_out.script_public_key {
            Some(pk) => {
                if !tx_has_valid_p2pkh_sig(
                    &tx_in.script_signature,
                    tx_out_hash.as_str(),
                    pk.as_str(),
                ) && !tx_has_valid_p2sh_script(&tx_in.script_signature, pk.as_str()) {
                    return false;
                }
            },
            None => {
                return false;
            },
        }
        let asset = tx_out.value.clone().with_fixed_hash(tx_out_point);
        proof {
            assert(assets.subrange(0, i + 1).drop_last() =~= assets.subrange(0, i as int));
            assert(assets.subrange(0, i + 1).last() == asset@);
        }
        if !tx_ins_spent.update_add(&asset) {
            proof {
                lemma_plus_all_fails_on(AssetValuesView::zero(), assets, i + 1);
            }
            return false;
        }
        i += 1;
    }
    assert(assets.subrange(0, i as int) =~= assets);
    tx_outs_are_valid(tx.outputs.as_slice(), tx_ins_spent)
}

/// Whether a transaction may enter the ledger, where `spent` holds for each
/// input the unspent output that it names, if there is one: a transaction
/// that creates has to create validly, any other has to be valid as one
/// that spends.
pub open spec fn tx_may_enter_ledger(tx: TransactionView, spent: Seq<Option<TxOutView>>) -> bool {
    if tx.create_asset() is Some {
        create_tx_valid(tx)
    } else {
        tx_valid(tx, spent)
    }
}

/// Whether `tx` may enter the ledger, where `spent` holds for each input the
/// unspent output that it names, if there is one.
pub fn tx_may_enter(tx: &Transaction, spent: &Vec<Option<&TxOut>>) -> (valid: bool)
    ensures
        valid == tx_may_enter_ledger(tx@, found_views(spent@)),
{
    if tx.get_create_asset().is_some() {
        create_tx_is_valid(tx)
    } else {
        tx_is_valid_spending(tx, spent)
    }
}

/// Whether `spent` holds, for each of `inputs`, an answer of `is_in_utxo` on
/// the output that the input names, and nothing for an input that names
/// none.
pub open spec fn answers<'a, F: Fn(&OutPoint) -> Option<&'a TxOut>>(
    is_in_utxo: F,
    inputs: Seq<crate::primitives::transaction::TxIn>,
    spent: Seq<Option<&'a TxOut>>,
) -> bool {
    &&& spent.len() == inputs.len()
    &&& forall|i: int|
        0 <= i < inputs.len() ==> match (#[trigger] inputs[i]).previous_out {
            Some(out_point) => call_ensures(is_in_utxo, (&out_point,), spent[i]),
            None => spent[i] is None,
        }
}

/// Whether `tx` is valid, where `is_in_utxo` finds the unspent output that
/// an input names, if there is one. The answer is that of
/// `tx_is_valid_spending` on what `is_in_utxo` finds for the inputs.
pub fn tx_is_valid<'a, F: Fn(&OutPoint) -> Option<&'a TxOut>>(
    tx: &Transaction,
    is_in_utxo: F,
) -> (valid: bool)
    requires
        forall|out_point: &OutPoint| call_requires(is_in_utxo, (out_point,)),
    ensures
        exists|spent: Seq<Option<&'a TxOut>>| #[trigger]
            answers(is_in_utxo, tx.inputs@, spent) && valid == tx_valid(tx@, found_views(spent)),
        has_item_output_with_metadata(tx@) ==> !valid,
{
    let mut spent: Vec<Option<&'a TxOut>> = Vec::new();
    let mut i: usize = 0;
    while i < tx.inputs.len()
        invariant
            i <= tx.inputs@.len(),
            spent@.len() == i,
            forall|out_point: &OutPoint| call_requires(is_in_utxo, (out_point,)),
            forall|k: int|
                0 <= k < i ==> match (#[trigger] tx.inputs@[k]).previous_out {
                    Some(out_point) => call_ensures(is_in_utxo, (&out_point,), spent@[k]),
                    None => spent@[k] is None,
                },
        decreases tx.inputs@.len() - i,
    {
        let found: Option<&'a TxOut> = match &tx.inputs[i].previous_out {
            Some(out_point) => is_in_utxo(out_point),
            None => None,
        };
        spent.push(found);
        i += 1;
    }
    assert(answers(is_in_utxo, tx.inputs@, spent@));
    tx_is_valid_spending(tx, &spent)
}

/*---- WHAT HOLDS OF VALID TRANSACTIONS ----*/

/// A script that interprets to true keeps the limits on scripts.
pub proof fn lemma_interpreted_script_keeps_limits(script: Seq<Value>)
    requires
        interprets(script),
    ensures
        script_size(script) <= MAX_SCRIPT_SIZE,
        op_count(script) <= MAX_OPS_PER_SCRIPT,
{
}

/// A valid transaction conserves assets: what its inputs bring in, tokens
/// and items under each genesis hash, is what its outputs hold.
pub proof fn lemma_valid_tx_conserves_assets(tx: TransactionView, spent: Seq<Option<TxOutView>>)
    requires
        tx_valid(tx, spent),
    ensures
        sum_of_inputs(tx.inputs, spent) is Some,
        sum_of_inputs(tx.inputs, spent) == sum_of_outputs(tx.outputs),
{
}

/// No transaction with an output that is an item with metadata is valid,
/// whatever its inputs spend.
pub proof fn lemma_item_output_with_metadata_is_invalid(
    tx: TransactionView,
    spent: Seq<Option<TxOutView>>,
)
    requires
        has_item_output_with_metadata(tx),
    ensures
        !tx_valid(tx, spent),
{
    let i = choose|i: int|
        0 <= i < tx.outputs.len() && (#[trigger] tx.outputs[i]).value is Item
            && tx.outputs[i].value->Item_0.metadata is Some;
    assert(!tx.outputs[i].value.may_be_spent_to());
}

/// The address scheme that one of the opcodes that derive an address stands
/// for.
pub open spec fn version_of(hash_op: Value) -> Option<u64> {
    if hash_op == Value::Op(OpCodes::OP_HASH256V0) {
        Some(NETWORK_VERSION_V0)
    } else if hash_op == Value::Op(OpCodes::OP_HASH256TEMP) {
        Some(NETWORK_VERSION_TEMP)
    } else {
        None
    }
}

/// One step of a run: before the entry at `k` the stacks have to keep their
/// limit, and the entry has to succeed.
proof fn lemma_run_from(script: Seq<Value>, k: int, st: Stacks)
    requires
        0 <= k <= script.len(),
    ensures
        run(script.skip(k), st) == if k == script.len() {
            Some(st)
        } else if st.main.len() + st.alt.len() > MAX_STACK_SIZE {
            None
        } else {
            match step(script[k], st) {
                Some(next) => run(script.skip(k + 1), next),
                None => None,
            }
        },
{
    if k < script.len() {
        assert(script.skip(k).drop_first() =~= script.skip(k + 1));
    }
}

/// A script of entries that may be pushed, or are opcodes, keeps the limits
/// on scripts where it has no more than 19 entries.
proof fn lemma_short_script_keeps_limits(script: Seq<Value>)
    requires
        script.len() <= 19,
        forall|i: int| 0 <= i < script.len() ==> (#[trigger] script[i]).size()
            <= MAX_SCRIPT_ITEM_SIZE,
    ensures
        within_limits(script),
        script_size(script) <= MAX_SCRIPT_ITEM_SIZE * script.len(),
        op_count(script) <= script.len(),
    decreases script.len(),
{
    if script.len() > 0 {
        let rest = script.drop_last();
        assert forall|i: int| 0 <= i < rest.len() implies (#[trigger] rest[i]).size()
            <= MAX_SCRIPT_ITEM_SIZE by {
            assert(rest[i] == script[i]);
        }
        lemma_short_script_keeps_limits(rest);
        assert(script.last() == script[script.len() - 1]);
    }
}

/// What a run comes to from an entry that is pushed.
proof fn lemma_run_push(script: Seq<Value>, k: int, st: Stacks)
    requires
        0 <= k < script.len(),
        !(script[k] is Op),
        st.main.len() + st.alt.len() <= MAX_STACK_SIZE,
    ensures
        run(script.skip(k), st) == if script[k].can_push() {
            run(script.skip(k + 1), Stacks { main: st.main.push(script[k]), alt: st.alt })
        } else {
            None
        },
{
    lemma_run_from(script, k, st);
}

/// What a run comes to from an opcode that works on the main stack, where
/// `after` is what the operation gives.
proof fn lemma_run_op(script: Seq<Value>, k: int, st: Stacks, after: Option<Seq<Value>>)
    requires
        0 <= k < script.len(),
        script[k] is Op,
        execute(script[k]->Op_0, st) == st.with_main(after),
        st.main.len() + st.alt.len() <= MAX_STACK_SIZE,
    ensures
        run(script.skip(k), st) == match after {
            Some(main) => run(script.skip(k + 1), Stacks { main, alt: st.alt }),
            None => None,
        },
{
    lemma_run_from(script, k, st);
}

/// What the opcodes of a script that spends by a signature do.
proof fn lemma_p2pkh_opcodes(hash_op: Value, st: Stacks)
    requires
        is_hash_op(hash_op),
    ensures
        execute(OpCodes::OP_DUP, st) == st.with_main(interface_ops::op_dup_spec(st.main)),
        execute(hash_op->Op_0, st) == st.with_main(
            interface_ops::op_hash256_spec(st.main, version_of(hash_op)),
        ),
        execute(OpCodes::OP_EQUALVERIFY, st) == st.with_main(
            interface_ops::op_equalverify_spec(st.main),
        ),
        execute(OpCodes::OP_CHECKSIG, st) == st.with_main(interface_ops::op_checksig_spec(st.main)),
{
    reveal(execute);
}

/// A script of the shape that spends by a signature under the address of a
/// key interprets to true just where its data and its address may be
/// pushed, its address is that of its key under the scheme of its opcode,
/// and its signature is one of its data under its key.
pub proof fn lemma_p2pkh_script_interprets(script: Seq<Value>)
    requires
        is_p2pkh_shape(script),
    ensures
        interprets(script) <==> {
            &&& byte_len(script[0]->Bytes_0) <= MAX_SCRIPT_ITEM_SIZE
            &&& byte_len(script[5]->PubKeyHash_0) <= MAX_SCRIPT_ITEM_SIZE
            &&& script[5]->PubKeyHash_0 == address_for(script[2]->PubKey_0, version_of(script[4]))
            &&& ed25519_valid(
                script[1]->Signature_0,
                vstd::utf8::encode_utf8(script[0]->Bytes_0),
                script[2]->PubKey_0,
            )
        },
{
    let data = script[0];
    let sig = script[1];
    let key = script[2];
    let address = script[5];
    let none = Seq::<Value>::empty();
    let derived = Value::PubKeyHash(address_for(key->PubKey_0, version_of(script[4])));
    let signed = ed25519_valid(
        sig->Signature_0,
        vstd::utf8::encode_utf8(data->Bytes_0),
        key->PubKey_0,
    );
    let st0 = Stacks::empty();
    let st1 = Stacks { main: seq![data], alt: none };
    let st2 = Stacks { main: seq![data, sig], alt: none };
    let st3 = Stacks { main: seq![data, sig, key], alt: none };
    let st4 = Stacks { main: seq![data, sig, key, key], alt: none };
    let st5 = Stacks { main: seq![data, sig, key, derived], alt: none };
    let st6 = Stacks { main: seq![data, sig, key, derived, address], alt: none };
    let end = run(script, st0);
    assert(script.skip(0) =~= script);
    if data.can_push() && address.can_push() {
        lemma_short_script_keeps_limits(script);
    }
    assert(end == if data.can_push() {
        run(script.skip(1), st1)
    } else {
        None
    }) by {
        lemma_run_push(script, 0, st0);
        assert(st0.main.push(data) =~= st1.main);
    }
    assert(run(script.skip(1), st1) == run(script.skip(2), st2)) by {
        lemma_run_push(script, 1, st1);
        assert(st1.main.push(sig) =~= st2.main);
    }
    assert(run(script.skip(2), st2) == run(script.skip(3), st3)) by {
        lemma_run_push(script, 2, st2);
        assert(st2.main.push(key) =~= st3.main);
    }
    assert(run(script.skip(3), st3) == run(script.skip(4), st4)) by {
        lemma_p2pkh_opcodes(script[4], st3);
        assert(interface_ops::op_dup_spec(st3.main)->0 =~= st4.main);
        lemma_run_op(script, 3, st3, Some(st4.main));
    }
    assert(run(script.skip(4), st4) == run(script.skip(5), st5)) by {
        lemma_p2pkh_opcodes(script[4], st4);
        assert(interface_ops::op_hash256_spec(st4.main, version_of(script[4]))->0 =~= st5.main);
        lemma_run_op(script, 4, st4, Some(st5.main));
    }
    assert(run(script.skip(5), st5) == if address.can_push() {
        run(script.skip(6), st6)
    } else {
        None
    }) by {
        lemma_run_push(script, 5, st5);
        assert(st5.main.push(address) =~= st6.main);
    }
    assert(run(script.skip(6), st6) == if derived == address {
        run(script.skip(7), st3)
    } else {
        None
    }) by {
        lemma_p2pkh_opcodes(script[4], st6);
        if derived == address {
            assert(interface_ops::op_equalverify_spec(st6.main)->0 =~= st3.main);
            lemma_run_op(script, 6, st6, Some(st3.main));
        } else {
            lemma_run_op(script, 6, st6, None);
        }
    }
    assert(run(script.skip(7), st3) == if signed {
        Some(st0)
    } else {
        None
    }) by {
        lemma_p2pkh_opcodes(script[4], st3);
        if signed {
            assert(interface_ops::op_checksig_spec(st3.main)->0 =~= none);
            lemma_run_op(script, 7, st3, Some(none));
            lemma_run_from(script, 8, st0);
        } else {
            lemma_run_op(script, 7, st3, None);
        }
    }
}

/// What the opcodes of a script that creates an asset do.
proof fn lemma_create_opcodes(st: Stacks)
    ensures
        execute(OpCodes::OP_CREATE, st) == st.with_main(Some(st.main)),
        execute(OpCodes::OP_DROP, st) == st.with_main(interface_ops::op_drop_spec(st.main)),
        execute(OpCodes::OP_CHECKSIG, st) == st.with_main(interface_ops::op_checksig_spec(st.main)),
{
    reveal(execute);
}

/// A script of the shape that creates an asset interprets to true just
/// where its data may be pushed and its signature is one of its data under
/// its key.
pub proof fn lemma_create_script_interprets(script: Seq<Value>)
    requires
        is_create_shape(script),
    ensures
        interprets(script) <==> {
            &&& byte_len(script[3]->Bytes_0) <= MAX_SCRIPT_ITEM_SIZE
            &&& ed25519_valid(
                script[4]->Signature_0,
                vstd::utf8::encode_utf8(script[3]->Bytes_0),
                script[5]->PubKey_0,
            )
        },
{
    let number = script[1];
    let data = script[3];
    let sig = script[4];
    let key = script[5];
    let none = Seq::<Value>::empty();
    let signed = ed25519_valid(
        sig->Signature_0,
        vstd::utf8::encode_utf8(data->Bytes_0),
        key->PubKey_0,
    );
    let st0 = Stacks::empty();
    let st1 = Stacks { main: seq![number], alt: none };
    let st2 = Stacks { main: seq![data], alt: none };
    let st3 = Stacks { main: seq![data, sig], alt: none };
    let st4 = Stacks { main: seq![data, sig, key], alt: none };
    assert(script.skip(0) =~= script);
    if data.can_push() {
        lemma_short_script_keeps_limits(script);
    }
    assert(run(script, st0) == run(script.skip(1), st0)) by {
        lemma_create_opcodes(st0);
        lemma_run_op(script, 0, st0, Some(st0.main));
    }
    assert(run(script.skip(1), st0) == run(script.skip(2), st1)) by {
        lemma_run_push(script, 1, st0);
        assert(st0.main.push(number) =~= st1.main);
    }
    assert(run(script.skip(2), st1) == run(script.skip(3), st0)) by {
        lemma_create_opcodes(st1);
        assert(interface_ops::op_drop_spec(st1.main)->0 =~= none);
        lemma_run_op(script, 2, st1, Some(none));
    }
    assert(run(script.skip(3), st0) == if data.can_push() {
        run(script.skip(4), st2)
    } else {
        None
    }) by {
        lemma_run_push(script, 3, st0);
        assert(st0.main.push(data) =~= st2.main);
    }
    assert(run(script.skip(4), st2) == run(script.skip(5), st3)) by {
        lemma_run_push(script, 4, st2);
        assert(st2.main.push(sig) =~= st3.main);
    }
    assert(run(script.skip(5), st3) == run(script.skip(6), st4)) by {
        lemma_run_push(script, 5, st3);
        assert(st3.main.push(key) =~= st4.main);
    }
    assert(run(script.skip(6), st4) == if signed {
        Some(st0)
    } else {
        None
    }) by {
        lemma_create_opcodes(st4);
        if signed {
            assert(interface_ops::op_checksig_spec(st4.main)->0 =~= none);
            lemma_run_op(script, 6, st4, Some(none));
            lemma_run_from(script, 7, st0);
        } else {
            lemma_run_op(script, 6, st4, None);
        }
    }
}

/// The script that `pay2pkh` builds interprets to true where its signature
/// is one of its data under its key, and the data may be pushed.
pub proof fn lemma_signed_pay2pkh_interprets(
    check_data: Seq<char>,
    signature: Seq<u8>,
    key: Seq<u8>,
    version: Option<u64>,
)
    requires
        ed25519_valid(signature, vstd::utf8::encode_utf8(check_data), key),
        byte_len(check_data) <= MAX_SCRIPT_ITEM_SIZE,
    ensures
        interprets(pay2pkh_script(check_data, signature, key, version)),
{
    let script = pay2pkh_script(check_data, signature, key, version);
    lemma_address_length(key, version);
    lemma_p2pkh_script_interprets(script);
}

} // verus!
