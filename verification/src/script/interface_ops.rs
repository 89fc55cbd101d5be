//! The operations of the scripting language, each as a function on the
//! interpreter's stack. An operation either applies, and then leaves the
//! stack that its specification gives, or fails. An operation that fails
//! for want of entries leaves the stack as it was; one that takes operands
//! off the stack has taken them by the time it fails on their kind or on
//! what they hold.

use crate::constants::MAX_SCRIPT_ELEMENT_SIZE;
use crate::crypto::sha3_256;
use crate::crypto::sha3_256::sha3_256_of;
use crate::crypto::sign_ed25519::{
    ed25519_valid, key_bytes, signature_bytes, verify_detached, PublicKey, Signature,
};
use crate::script::{values, StackEntry, Value};
use crate::utils::hex_codec::{hex_encode, hex_text};
use crate::utils::text::{byte_len, text_len};
use crate::utils::transaction_utils::{address_for, construct_address_for};
use vstd::prelude::*;
use vstd::utf8::{
    decode_utf8, encode_utf8, encode_utf8_decode_utf8, encode_utf8_valid_utf8, is_char_boundary,
    is_char_boundary_iff_not_is_continuation_byte, is_char_boundary_start_end_of_seq,
};

verus! {

/// What a call of an operation that takes nothing off the stack before it
/// can fail has to come to: where the specification gives a stack, the
/// operation succeeds and leaves that stack; where it gives none, the
/// operation fails and leaves the stack untouched.
pub open spec fn applies(
    ok: bool,
    before: Seq<StackEntry>,
    after: Seq<StackEntry>,
    expected: Option<Seq<Value>>,
) -> bool {
    match expected {
        Some(stack) => ok && values(after) =~= stack,
        None => !ok && after =~= before,
    }
}

/// The entry `depth` places below the top of `stack`; the top is at depth 0.
pub open spec fn peek(stack: Seq<Value>, depth: int) -> Value {
    stack[stack.len() - 1 - depth]
}

/// `stack` without its `count` topmost entries.
pub open spec fn below(stack: Seq<Value>, count: int) -> Seq<Value> {
    stack.subrange(0, stack.len() - count)
}

/// The `count` topmost entries of `stack`, in their order.
pub open spec fn top(stack: Seq<Value>, count: int) -> Seq<Value> {
    stack.subrange(stack.len() - count, stack.len() as int)
}

/// The kinds of entry that an operation asks for as an operand.
#[derive(Clone, Copy, Debug, PartialEq, Eq, Structural)]
pub enum Kind {
    /// An entry of whatever kind.
    Any,
    Num,
    Bytes,
    Signature,
    PubKey,
}

/// Whether the entry `v` is of the kind `kind`.
pub open spec fn is_of(v: Value, kind: Kind) -> bool {
    match kind {
        Kind::Any => true,
        Kind::Num => v is Num,
        Kind::Bytes => v is Bytes,
        Kind::Signature => v is Signature,
        Kind::PubKey => v is PubKey,
    }
}

/// The stack that an operation with one operand leaves where it fails. An
/// operation that needs `least` entries and finds fewer leaves the stack as
/// it is. Any other failure comes after the operand was taken off.
pub open spec fn left_of_one(s: Seq<Value>, least: int) -> Seq<Value> {
    if s.len() < least {
        s
    } else {
        below(s, 1)
    }
}

/// The stack that an operation with two operands leaves where it fails. It
/// leaves a stack of fewer than two entries as it is. Otherwise it takes its
/// operands one by one from the top, and fails once it has taken one that
/// is of the wrong kind, where `upper` is the kind that it asks of the
/// upper one, or once it has taken both.
pub open spec fn left_of_two(s: Seq<Value>, upper: Kind) -> Seq<Value> {
    if s.len() < 2 {
        s
    } else if !is_of(peek(s, 0), upper) {
        below(s, 1)
    } else {
        below(s, 2)
    }
}

/// The stack that an operation with three operands leaves where it fails.
/// It leaves a stack of fewer than three entries as it is. Otherwise it
/// takes its operands one by one from the top, and fails once it has taken
/// one that is of the wrong kind, where `upper` and `middle` are the kinds
/// that it asks of the upper two, or once it has taken all three.
pub open spec fn left_of_three(s: Seq<Value>, upper: Kind, middle: Kind) -> Seq<Value> {
    if s.len() < 3 {
        s
    } else if !is_of(peek(s, 0), upper) {
        below(s, 1)
    } else if !is_of(peek(s, 1), middle) {
        below(s, 2)
    } else {
        below(s, 3)
    }
}

/// What a call of an operation that takes operands has to come to: where
/// the specification gives a stack, the operation succeeds and leaves that
/// stack; where it gives none, the operation fails and leaves `left`.
pub open spec fn applies_or_leaves(
    ok: bool,
    after: Seq<StackEntry>,
    expected: Option<Seq<Value>>,
    left: Seq<Value>,
) -> bool {
    match expected {
        Some(stack) => ok && values(after) =~= stack,
        None => !ok && values(after) =~= left,
    }
}

/*---- STACK OPS ----*/

/// The two stacks after OP_TOALTSTACK; none where it fails.
pub open spec fn toaltstack_spec(main: Seq<Value>, alt: Seq<Value>) -> Option<
    (Seq<Value>, Seq<Value>),
> {
    if main.len() >= 1 {
        Some((below(main, 1), alt.push(peek(main, 0))))
    } else {
        None
    }
}

/// The two stacks after OP_FROMALTSTACK; none where it fails.
pub open spec fn fromaltstack_spec(main: Seq<Value>, alt: Seq<Value>) -> Option<
    (Seq<Value>, Seq<Value>),
> {
    if alt.len() >= 1 {
        Some((main.push(peek(alt, 0)), below(alt, 1)))
    } else {
        None
    }
}

/// The stack after OP_2DROP; none where it fails.
pub open spec fn op_2drop_spec(s: Seq<Value>) -> Option<Seq<Value>> {
    if s.len() >= 2 {
        Some(below(s, 2))
    } else {
        None
    }
}

/// The stack after OP_2DUP; none where it fails.
pub open spec fn op_2dup_spec(s: Seq<Value>) -> Option<Seq<Value>> {
    if s.len() >= 2 {
        Some(s + top(s, 2))
    } else {
        None
    }
}

/// The stack after OP_3DUP; none where it fails.
pub open spec fn op_3dup_spec(s: Seq<Value>) -> Option<Seq<Value>> {
    if s.len() >= 3 {
        Some(s + top(s, 3))
    } else {
        None
    }
}

/// The stack after OP_2OVER; none where it fails.
pub open spec fn op_2over_spec(s: Seq<Value>) -> Option<Seq<Value>> {
    if s.len() >= 4 {
        Some(s + top(below(s, 2), 2))
    } else {
        None
    }
}

/// The stack after OP_2ROT; none where it fails.
pub open spec fn op_2rot_spec(s: Seq<Value>) -> Option<Seq<Value>> {
    if s.len() >= 6 {
        Some(below(s, 6) + top(s, 4) + top(below(s, 4), 2))
    } else {
        None
    }
}

/// The stack after OP_2SWAP; none where it fails.
pub open spec fn op_2swap_spec(s: Seq<Value>) -> Option<Seq<Value>> {
    if s.len() >= 4 {
        Some(below(s, 4) + top(s, 2) + top(below(s, 2), 2))
    } else {
        None
    }
}

/// The stack after OP_IFDUP; none where it fails.
pub open spec fn op_ifdup_spec(s: Seq<Value>) -> Option<Seq<Value>> {
    if s.len() >= 1 {
        if peek(s, 0) != Value::Num(0) {
            Some(s.push(peek(s, 0)))
        } else {
            Some(s)
        }
    } else {
        None
    }
}

/// The stack after OP_DEPTH; none where it fails.
pub open spec fn op_depth_spec(s: Seq<Value>) -> Option<Seq<Value>> {
    Some(s.push(Value::Num(s.len() as usize)))
}

/// The stack after OP_DROP; none where it fails.
pub open spec fn op_drop_spec(s: Seq<Value>) -> Option<Seq<Value>> {
    if s.len() >= 1 {
        Some(below(s, 1))
    } else {
        None
    }
}

/// The stack after OP_DUP; none where it fails.
pub open spec fn op_dup_spec(s: Seq<Value>) -> Option<Seq<Value>> {
    if s.len() >= 1 {
        Some(s.push(peek(s, 0)))
    } else {
        None
    }
}

/// The stack after OP_NIP; none where it fails.
pub open spec fn op_nip_spec(s: Seq<Value>) -> Option<Seq<Value>> {
    if s.len() >= 2 {
        Some(below(s, 2).push(peek(s, 0)))
    } else {
        None
    }
}

/// The stack after OP_OVER; none where it fails.
pub open spec fn op_over_spec(s: Seq<Value>) -> Option<Seq<Value>> {
    if s.len() >= 2 {
        Some(s.push(peek(s, 1)))
    } else {
        None
    }
}

/// The index that `OP_PICK` and `OP_ROLL` read from the top of the stack: it
/// counts from the entry just below it, and has to name an entry.
pub open spec fn pick_index(s: Seq<Value>) -> Option<int> {
    if s.len() >= 2 && peek(s, 0) is Num && peek(s, 0)->Num_0 < s.len() - 1 {
        Some(peek(s, 0)->Num_0 as int)
    } else {
        None
    }
}

/// The stack after OP_PICK; none where it fails.
pub open spec fn op_pick_spec(s: Seq<Value>) -> Option<Seq<Value>> {
    match pick_index(s) {
        Some(n) => Some(below(s, 1).push(peek(s, n + 1))),
        None => None,
    }
}

/// The stack after OP_ROLL; none where it fails.
pub open spec fn op_roll_spec(s: Seq<Value>) -> Option<Seq<Value>> {
    match pick_index(s) {
        Some(n) => Some(below(s, n + 2) + top(below(s, 1), n).push(peek(s, n + 1))),
        None => None,
    }
}

/// The stack after OP_ROT; none where it fails.
pub open spec fn op_rot_spec(s: Seq<Value>) -> Option<Seq<Value>> {
    if s.len() >= 3 {
        Some(below(s, 3) + top(s, 2).push(peek(s, 2)))
    } else {
        None
    }
}

/// The stack after OP_SWAP; none where it fails.
pub open spec fn op_swap_spec(s: Seq<Value>) -> Option<Seq<Value>> {
    if s.len() >= 2 {
        Some(below(s, 2).push(peek(s, 0)).push(peek(s, 1)))
    } else {
        None
    }
}

/// The stack after OP_TUCK; none where it fails.
pub open spec fn op_tuck_spec(s: Seq<Value>) -> Option<Seq<Value>> {
    if s.len() >= 2 {
        Some(below(s, 2).push(peek(s, 0)) + top(s, 2))
    } else {
        None
    }
}

/// Pushes a copy of the entry `depth` places below the top.
fn push_copy(stack: &mut Vec<StackEntry>, depth: usize)
    requires
        depth < old(stack)@.len(),
    ensures
        final(stack)@ == old(stack)@.push(old(stack)@[old(stack)@.len() - 1 - depth]),
        values(final(stack)@) == values(old(stack)@).push(peek(values(old(stack)@), depth as int)),
{
    let entry = stack[stack.len() - 1 - depth].clone();
    stack.push(entry);
    assert(values(stack@) =~= values(old(stack)@).push(peek(values(old(stack)@), depth as int)));
}

/// Moves the entry `depth` places below the top to the top.
fn raise(stack: &mut Vec<StackEntry>, depth: usize)
    requires
        depth < old(stack)@.len(),
    ensures
        final(stack)@.len() == old(stack)@.len(),
        values(final(stack)@) == below(values(old(stack)@), depth + 1) + top(
            values(old(stack)@),
            depth as int,
        ).push(peek(values(old(stack)@), depth as int)),
{
    let index: usize = stack.len() - 1 - depth;
    let entry = stack.remove(index);
    stack.push(entry);
    assert(values(stack@) =~= below(values(old(stack)@), depth + 1) + top(
        values(old(stack)@),
        depth as int,
    ).push(peek(values(old(stack)@), depth as int)));
}

/// Removes the `count` topmost entries.
fn discard(stack: &mut Vec<StackEntry>, count: usize)
    requires
        count <= old(stack)@.len(),
    ensures
        final(stack)@ == old(stack)@.subrange(0, old(stack)@.len() - count),
        values(final(stack)@) == below(values(old(stack)@), count as int),
{
    let mut done: usize = 0;
    while done < count
        invariant
            done <= count <= old(stack)@.len(),
            stack@ == old(stack)@.subrange(0, old(stack)@.len() - done),
        decreases count - done,
    {
        stack.pop();
        done += 1;
        assert(stack@ =~= old(stack)@.subrange(0, old(stack)@.len() - done));
    }
    assert(values(stack@) =~= below(values(old(stack)@), count as int));
}

/// Whether `entry` is of the kind `kind`.
fn entry_is_of(entry: &StackEntry, kind: Kind) -> (yes: bool)
    ensures
        yes == is_of(entry@, kind),
{
    match kind {
        Kind::Any => true,
        Kind::Num => match entry {
            StackEntry::Num(_) => true,
            _ => false,
        },
        Kind::Bytes => match entry {
            StackEntry::Bytes(_) => true,
            _ => false,
        },
        Kind::Signature => match entry {
            StackEntry::Signature(_) => true,
            _ => false,
        },
        Kind::PubKey => match entry {
            StackEntry::PubKey(_) => true,
            _ => false,
        },
    }
}

/// Fails as an operation does that needs `least` entries and takes one
/// operand.
fn give_up_1(stack: &mut Vec<StackEntry>, least: usize) -> (ok: bool)
    requires
        1 <= least,
    ensures
        !ok,
        values(final(stack)@) == left_of_one(values(old(stack)@), least as int),
{
    if stack.len() >= least {
        discard(stack, 1);
    }
    false
}

/// Fails as an operation does that takes two operands, the upper of the
/// kind `upper`.
fn give_up_2(stack: &mut Vec<StackEntry>, upper: Kind) -> (ok: bool)
    ensures
        !ok,
        values(final(stack)@) == left_of_two(values(old(stack)@), upper),
{
    let len: usize = stack.len();
    if len >= 2 {
        if entry_is_of(&stack[len - 1], upper) {
            discard(stack, 2);
        } else {
            discard(stack, 1);
        }
    }
    false
}

/// Fails as an operation does that takes three operands, the upper two of
/// the kinds `upper` and `middle`.
fn give_up_3(stack: &mut Vec<StackEntry>, upper: Kind, middle: Kind) -> (ok: bool)
    ensures
        !ok,
        values(final(stack)@) == left_of_three(values(old(stack)@), upper, middle),
{
    let len: usize = stack.len();
    if len >= 3 {
        if !entry_is_of(&stack[len - 1], upper) {
            discard(stack, 1);
        } else if !entry_is_of(&stack[len - 2], middle) {
            discard(stack, 2);
        } else {
            discard(stack, 3);
        }
    }
    false
}

/// Pushes `entry`.
fn push(stack: &mut Vec<StackEntry>, entry: StackEntry)
    ensures
        final(stack)@ == old(stack)@.push(entry),
        values(final(stack)@) == values(old(stack)@).push(entry@),
{
    stack.push(entry);
    assert(values(stack@) =~= values(old(stack)@).push(entry@));
}

/// OP_TOALTSTACK: moves the top entry of the main stack to the top of the
/// alternate stack.
pub fn op_toaltstack(
    current_stack: &mut Vec<StackEntry>,
    current_alt_stack: &mut Vec<StackEntry>,
) -> (ok: bool)
    ensures
        match toaltstack_spec(values(old(current_stack)@), values(old(current_alt_stack)@)) {
            Some((main, alt)) => {
                &&& ok
                &&& values(final(current_stack)@) == main
                &&& values(final(current_alt_stack)@) == alt
            },
            None => {
                &&& !ok
                &&& final(current_stack)@ == old(current_stack)@
                &&& final(current_alt_stack)@ == old(current_alt_stack)@
            },
        },
{
    match current_stack.pop() {
        Some(entry) => {
            push(current_alt_stack, entry);
            assert(values(current_stack@) =~= below(values(old(current_stack)@), 1));
            true
        },
        None => false,
    }
}

/// OP_FROMALTSTACK: moves the top entry of the alternate stack to the top of
/// the main stack.
pub fn op_fromaltstack(
    current_stack: &mut Vec<StackEntry>,
    current_alt_stack: &mut Vec<StackEntry>,
) -> (ok: bool)
    ensures
        match fromaltstack_spec(values(old(current_stack)@), values(old(current_alt_stack)@)) {
            Some((main, alt)) => {
                &&& ok
                &&& values(final(current_stack)@) == main
                &&& values(final(current_alt_stack)@) == alt
            },
            None => {
                &&& !ok
                &&& final(current_stack)@ == old(current_stack)@
                &&& final(current_alt_stack)@ == old(current_alt_stack)@
            },
        },
{
    match current_alt_stack.pop() {
        Some(entry) => {
            push(current_stack, entry);
            assert(values(current_alt_stack@) =~= below(values(old(current_alt_stack)@), 1));
            true
        },
        None => false,
    }
}

/// OP_2DROP: removes the two topmost entries.
pub fn op_2drop(current_stack: &mut Vec<StackEntry>) -> (ok: bool)
    ensures
        applies(
            ok,
            old(current_stack)@,
            final(current_stack)@,
            op_2drop_spec(values(old(current_stack)@)),
        ),
{
    if current_stack.len() < 2 {
        return false;
    }
    discard(current_stack, 2);
    true
}

/// OP_2DUP: copies the two topmost entries to the top.
pub fn op_2dup(current_stack: &mut Vec<StackEntry>) -> (ok: bool)
    ensures
        applies(
            ok,
            old(current_stack)@,
            final(current_stack)@,
            op_2dup_spec(values(old(current_stack)@)),
        ),
{
    if current_stack.len() < 2 {
        return false;
    }
    push_copy(current_stack, 1);
    push_copy(current_stack, 1);
    assert(values(current_stack@) =~= values(old(current_stack)@) + top(
        values(old(current_stack)@),
        2,
    ));
    true
}

/// OP_3DUP: copies the three topmost entries to the top.
pub fn op_3dup(current_stack: &mut Vec<StackEntry>) -> (ok: bool)
    ensures
        applies(
            ok,
            old(current_stack)@,
            final(current_stack)@,
            op_3dup_spec(values(old(current_stack)@)),
        ),
{
    if current_stack.len() < 3 {
        return false;
    }
    push_copy(current_stack, 2);
    push_copy(current_stack, 2);
    push_copy(current_stack, 2);
    assert(values(current_stack@) =~= values(old(current_stack)@) + top(
        values(old(current_stack)@),
        3,
    ));
    true
}

/// OP_2OVER: copies the pair below the topmost pair to the top.
pub fn op_2over(current_stack: &mut Vec<StackEntry>) -> (ok: bool)
    ensures
        applies(
            ok,
            old(current_stack)@,
            final(current_stack)@,
            op_2over_spec(values(old(current_stack)@)),
        ),
{
    if current_stack.len() < 4 {
        return false;
    }
    push_copy(current_stack, 3);
    push_copy(current_stack, 3);
    assert(values(current_stack@) =~= values(old(current_stack)@) + top(
        below(values(old(current_stack)@), 2),
        2,
    ));
    true
}

/// OP_2ROT: moves the third pair from the top to the top.
pub fn op_2rot(current_stack: &mut Vec<StackEntry>) -> (ok: bool)
    ensures
        applies(
            ok,
            old(current_stack)@,
            final(current_stack)@,
            op_2rot_spec(values(old(current_stack)@)),
        ),
{
    if current_stack.len() < 6 {
        return false;
    }
    raise(current_stack, 5);
    raise(current_stack, 5);
    assert(values(current_stack@) =~= op_2rot_spec(values(old(current_stack)@))->0);
    true
}

/// OP_2SWAP: swaps the two topmost pairs.
pub fn op_2swap(current_stack: &mut Vec<StackEntry>) -> (ok: bool)
    ensures
        applies(
            ok,
            old(current_stack)@,
            final(current_stack)@,
            op_2swap_spec(values(old(current_stack)@)),
        ),
{
    if current_stack.len() < 4 {
        return false;
    }
    raise(current_stack, 3);
    raise(current_stack, 3);
    assert(values(current_stack@) =~= op_2swap_spec(values(old(current_stack)@))->0);
    true
}

/// OP_IFDUP: copies the top entry to the top unless it is the number zero.
pub fn op_ifdup(current_stack: &mut Vec<StackEntry>) -> (ok: bool)
    ensures
        applies(
            ok,
            old(current_stack)@,
            final(current_stack)@,
            op_ifdup_spec(values(old(current_stack)@)),
        ),
{
    if current_stack.len() < 1 {
        return false;
    }
    let is_zero = match &current_stack[current_stack.len() - 1] {
        StackEntry::Num(n) => *n == 0,
        _ => false,
    };
    if !is_zero {
        push_copy(current_stack, 0);
    }
    true
}

/// OP_DEPTH: pushes the number of entries on the stack.
pub fn op_depth(current_stack: &mut Vec<StackEntry>) -> (ok: bool)
    ensures
        applies(
            ok,
            old(current_stack)@,
            final(current_stack)@,
            op_depth_spec(values(old(current_stack)@)),
        ),
{
    let depth: usize = current_stack.len();
    push(current_stack, StackEntry::Num(depth));
    true
}

/// OP_DROP: removes the top entry.
pub fn op_drop(current_stack: &mut Vec<StackEntry>) -> (ok: bool)
    ensures
        applies(
            ok,
            old(current_stack)@,
            final(current_stack)@,
            op_drop_spec(values(old(current_stack)@)),
        ),
{
    if current_stack.len() < 1 {
        return false;
    }
    discard(current_stack, 1);
    true
}

/// OP_DUP: copies the top entry to the top.
pub fn op_dup(current_stack: &mut Vec<StackEntry>) -> (ok: bool)
    ensures
        applies(
            ok,
            old(current_stack)@,
            final(current_stack)@,
            op_dup_spec(values(old(current_stack)@)),
        ),
{
    if current_stack.len() < 1 {
        return false;
    }
    push_copy(current_stack, 0);
    true
}

/// OP_NIP: removes the entry below the top.
pub fn op_nip(current_stack: &mut Vec<StackEntry>) -> (ok: bool)
    ensures
        applies(
            ok,
            old(current_stack)@,
            final(current_stack)@,
            op_nip_spec(values(old(current_stack)@)),
        ),
{
    if current_stack.len() < 2 {
        return false;
    }
    raise(current_stack, 1);
    discard(current_stack, 1);
    assert(values(current_stack@) =~= op_nip_spec(values(old(current_stack)@))->0);
    true
}

/// OP_OVER: copies the entry below the top to the top.
pub fn op_over(current_stack: &mut Vec<StackEntry>) -> (ok: bool)
    ensures
        applies(
            ok,
            old(current_stack)@,
            final(current_stack)@,
            op_over_spec(values(old(current_stack)@)),
        ),
{
    if current_stack.len() < 2 {
        return false;
    }
    push_copy(current_stack, 1);
    true
}

/// OP_PICK: takes a number `n` off the top and copies the entry `n` places below the new
/// top to the top.
pub fn op_pick(current_stack: &mut Vec<StackEntry>) -> (ok: bool)
    ensures
        applies_or_leaves(
            ok,
            final(current_stack)@,
            op_pick_spec(values(old(current_stack)@)),
            left_of_one(values(old(current_stack)@), 2),
        ),
{
    let len: usize = current_stack.len();
    if len < 2 {
        return give_up_1(current_stack, 2);
    }
    let n: usize = match &current_stack[len - 1] {
        StackEntry::Num(n) => *n,
        _ => { return give_up_1(current_stack, 2); },
    };
    if n >= len - 1 {
        return give_up_1(current_stack, 2);
    }
    discard(current_stack, 1);
    push_copy(current_stack, n);
    assert(values(current_stack@) =~= op_pick_spec(values(old(current_stack)@))->0);
    true
}

/// OP_ROLL: takes a number `n` off the top and moves the entry `n` places below the new
/// top to the top.
pub fn op_roll(current_stack: &mut Vec<StackEntry>) -> (ok: bool)
    ensures
        applies_or_leaves(
            ok,
            final(current_stack)@,
            op_roll_spec(values(old(current_stack)@)),
            left_of_one(values(old(current_stack)@), 2),
        ),
{
    let len: usize = current_stack.len();
    if len < 2 {
        return give_up_1(current_stack, 2);
    }
    let n: usize = match &current_stack[len - 1] {
        StackEntry::Num(n) => *n,
        _ => { return give_up_1(current_stack, 2); },
    };
    if n >= len - 1 {
        return give_up_1(current_stack, 2);
    }
    discard(current_stack, 1);
    raise(current_stack, n);
    assert(values(current_stack@) =~= op_roll_spec(values(old(current_stack)@))->0);
    true
}

/// OP_ROT: moves the third entry from the top to the top.
pub fn op_rot(current_stack: &mut Vec<StackEntry>) -> (ok: bool)
    ensures
        applies(
            ok,
            old(current_stack)@,
            final(current_stack)@,
            op_rot_spec(values(old(current_stack)@)),
        ),
{
    if current_stack.len() < 3 {
        return false;
    }
    raise(current_stack, 2);
    true
}

/// OP_SWAP: swaps the two topmost entries.
pub fn op_swap(current_stack: &mut Vec<StackEntry>) -> (ok: bool)
    ensures
        applies(
            ok,
            old(current_stack)@,
            final(current_stack)@,
            op_swap_spec(values(old(current_stack)@)),
        ),
{
    if current_stack.len() < 2 {
        return false;
    }
    raise(current_stack, 1);
    assert(values(current_stack@) =~= op_swap_spec(values(old(current_stack)@))->0);
    true
}

/// OP_TUCK: copies the top entry to the place below the entry under it.
pub fn op_tuck(current_stack: &mut Vec<StackEntry>) -> (ok: bool)
    ensures
        applies(
            ok,
            old(current_stack)@,
            final(current_stack)@,
            op_tuck_spec(values(old(current_stack)@)),
        ),
{
    if current_stack.len() < 2 {
        return false;
    }
    push_copy(current_stack, 0);
    raise(current_stack, 2);
    raise(current_stack, 2);
    assert(values(current_stack@) =~= op_tuck_spec(values(old(current_stack)@))->0);
    true
}

/*---- NUMBERS ----*/

/// The number `depth` places below the top of `s`, if there is an entry at
/// that depth and it is a number.
pub open spec fn number_at(s: Seq<Value>, depth: int) -> Option<usize> {
    if 0 <= depth < s.len() && peek(s, depth) is Num {
        Some(peek(s, depth)->Num_0)
    } else {
        None
    }
}

/// `s` with its `count` topmost entries replaced by `v`.
pub open spec fn replaced(s: Seq<Value>, count: int, v: Value) -> Seq<Value> {
    below(s, count).push(v)
}

/// The number that stands for a truth value: one for true, zero for false.
pub open spec fn truth(b: bool) -> Value {
    if b {
        Value::Num(1)
    } else {
        Value::Num(0)
    }
}

/// An operation that replaces the number on top by `f` of it, and fails
/// where `f` gives nothing.
pub open spec fn unary(s: Seq<Value>, f: spec_fn(usize) -> Option<usize>) -> Option<Seq<Value>> {
    match number_at(s, 0) {
        Some(n) => match f(n) {
            Some(r) => Some(replaced(s, 1, Value::Num(r))),
            None => None,
        },
        None => None,
    }
}

/// An operation that replaces the two numbers on top, `n1` below `n2`, by
/// `f(n1, n2)`, and fails where `f` gives nothing.
pub open spec fn binary(s: Seq<Value>, f: spec_fn(usize, usize) -> Option<usize>) -> Option<
    Seq<Value>,
> {
    match (number_at(s, 1), number_at(s, 0)) {
        (Some(n1), Some(n2)) => match f(n1, n2) {
            Some(r) => Some(replaced(s, 2, Value::Num(r))),
            None => None,
        },
        _ => None,
    }
}

/// The number `depth` places below the top, if there is one.
fn num_at(stack: &Vec<StackEntry>, depth: usize) -> (n: Option<usize>)
    ensures
        n == number_at(values(stack@), depth as int),
{
    let len: usize = stack.len();
    if depth >= len {
        return None;
    }
    match &stack[len - 1 - depth] {
        StackEntry::Num(n) => Some(*n),
        _ => None,
    }
}

/// Replaces the `count` topmost entries by `entry`.
fn replace_top(stack: &mut Vec<StackEntry>, count: usize, entry: StackEntry)
    requires
        count <= old(stack)@.len(),
    ensures
        values(final(stack)@) == replaced(values(old(stack)@), count as int, entry@),
{
    discard(stack, count);
    push(stack, entry);
}

/// `n1` shifted left by the low 32 bits of `n2`, if that amount is less than
/// the width of a word.
fn shifted_left(n1: usize, n2: usize) -> (r: Option<usize>)
    ensures
        r == if shift_amount(n2) < usize::BITS {
            Some(n1 << shift_amount(n2))
        } else {
            None
        },
{
    let shift: u32 = #[verifier::truncate] (n2 as u32);
    if shift < usize::BITS {
        Some(n1 << shift)
    } else {
        None
    }
}

/// `n1` shifted right by the low 32 bits of `n2`, if that amount is less than
/// the width of a word.
fn shifted_right(n1: usize, n2: usize) -> (r: Option<usize>)
    ensures
        r == if shift_amount(n2) < usize::BITS {
            Some(n1 >> shift_amount(n2))
        } else {
            None
        },
{
    let shift: u32 = #[verifier::truncate] (n2 as u32);
    if shift < usize::BITS {
        Some(n1 >> shift)
    } else {
        None
    }
}

/*---- BITWISE LOGIC OPS ----*/

/// The stack after OP_INVERT; none where it fails.
pub open spec fn op_invert_spec(s: Seq<Value>) -> Option<Seq<Value>> {
    unary(s, |n: usize| Some(!n))
}

/// OP_INVERT: replaces the number on top by its bitwise complement.
pub fn op_invert(current_stack: &mut Vec<StackEntry>) -> (ok: bool)
    ensures
        applies_or_leaves(
            ok,
            final(current_stack)@,
            op_invert_spec(values(old(current_stack)@)),
            left_of_one(values(old(current_stack)@), 1),
        ),
{
    let n: usize = match num_at(current_stack, 0) {
        Some(n) => n,
        None => { return give_up_1(current_stack, 1); },
    };
    let r: usize = !n;
    replace_top(current_stack, 1, StackEntry::Num(r));
    true
}

/// The stack after OP_AND; none where it fails.
pub open spec fn op_and_spec(s: Seq<Value>) -> Option<Seq<Value>> {
    binary(s, |n1: usize, n2: usize| Some(n1 & n2))
}

/// OP_AND: replaces the two numbers on top by their bitwise and.
pub fn op_and(current_stack: &mut Vec<StackEntry>) -> (ok: bool)
    ensures
        applies_or_leaves(
            ok,
            final(current_stack)@,
            op_and_spec(values(old(current_stack)@)),
            left_of_two(values(old(current_stack)@), Kind::Num),
        ),
{
    let (n1, n2) = match (num_at(current_stack, 1), num_at(current_stack, 0)) {
        (Some(n1), Some(n2)) => (n1, n2),
        _ => { return give_up_2(current_stack, Kind::Num); },
    };
    let r: usize = n1 & n2;
    replace_top(current_stack, 2, StackEntry::Num(r));
    true
}

/// The stack after OP_OR; none where it fails.
pub open spec fn op_or_spec(s: Seq<Value>) -> Option<Seq<Value>> {
    binary(s, |n1: usize, n2: usize| Some(n1 | n2))
}

/// OP_OR: replaces the two numbers on top by their bitwise or.
pub fn op_or(current_stack: &mut Vec<StackEntry>) -> (ok: bool)
    ensures
        applies_or_leaves(
            ok,
            final(current_stack)@,
            op_or_spec(values(old(current_stack)@)),
            left_of_two(values(old(current_stack)@), Kind::Num),
        ),
{
    let (n1, n2) = match (num_at(current_stack, 1), num_at(current_stack, 0)) {
        (Some(n1), Some(n2)) => (n1, n2),
        _ => { return give_up_2(current_stack, Kind::Num); },
    };
    let r: usize = n1 | n2;
    replace_top(current_stack, 2, StackEntry::Num(r));
    true
}

/// The stack after OP_XOR; none where it fails.
pub open spec fn op_xor_spec(s: Seq<Value>) -> Option<Seq<Value>> {
    binary(s, |n1: usize, n2: usize| Some(n1 ^ n2))
}

/// OP_XOR: replaces the two numbers on top by their bitwise exclusive or.
pub fn op_xor(current_stack: &mut Vec<StackEntry>) -> (ok: bool)
    ensures
        applies_or_leaves(
            ok,
            final(current_stack)@,
            op_xor_spec(values(old(current_stack)@)),
            left_of_two(values(old(current_stack)@), Kind::Num),
        ),
{
    let (n1, n2) = match (num_at(current_stack, 1), num_at(current_stack, 0)) {
        (Some(n1), Some(n2)) => (n1, n2),
        _ => { return give_up_2(current_stack, Kind::Num); },
    };
    let r: usize = n1 ^ n2;
    replace_top(current_stack, 2, StackEntry::Num(r));
    true
}

/*---- ARITHMETIC OPS ----*/

/// The stack after OP_1ADD; none where it fails.
pub open spec fn op_1add_spec(s: Seq<Value>) -> Option<Seq<Value>> {
    unary(s, |n: usize| if n < usize::MAX {
        Some((n + 1) as usize)
    } else {
        None
    })
}

/// OP_1ADD: adds one to the number on top; fails where the sum does not fit.
pub fn op_1add(current_stack: &mut Vec<StackEntry>) -> (ok: bool)
    ensures
        applies_or_leaves(
            ok,
            final(current_stack)@,
            op_1add_spec(values(old(current_stack)@)),
            left_of_one(values(old(current_stack)@), 1),
        ),
{
    let n: usize = match num_at(current_stack, 0) {
        Some(n) => n,
        None => { return give_up_1(current_stack, 1); },
    };
    match n.checked_add(1) {
        Some(r) => {
            replace_top(current_stack, 1, StackEntry::Num(r));
            true
        },
        None => give_up_1(current_stack, 1),
    }
}

/// The stack after OP_1SUB; none where it fails.
pub open spec fn op_1sub_spec(s: Seq<Value>) -> Option<Seq<Value>> {
    unary(s, |n: usize| if n > 0 {
        Some((n - 1) as usize)
    } else {
        None
    })
}

/// OP_1SUB: subtracts one from the number on top; fails on zero.
pub fn op_1sub(current_stack: &mut Vec<StackEntry>) -> (ok: bool)
    ensures
        applies_or_leaves(
            ok,
            final(current_stack)@,
            op_1sub_spec(values(old(current_stack)@)),
            left_of_one(values(old(current_stack)@), 1),
        ),
{
    let n: usize = match num_at(current_stack, 0) {
        Some(n) => n,
        None => { return give_up_1(current_stack, 1); },
    };
    match n.checked_sub(1) {
        Some(r) => {
            replace_top(current_stack, 1, StackEntry::Num(r));
            true
        },
        None => give_up_1(current_stack, 1),
    }
}

/// The stack after OP_2MUL; none where it fails.
pub open spec fn op_2mul_spec(s: Seq<Value>) -> Option<Seq<Value>> {
    unary(s, |n: usize| if 2 * n <= usize::MAX {
        Some((2 * n) as usize)
    } else {
        None
    })
}

/// OP_2MUL: doubles the number on top; fails where the product does not fit.
pub fn op_2mul(current_stack: &mut Vec<StackEntry>) -> (ok: bool)
    ensures
        applies_or_leaves(
            ok,
            final(current_stack)@,
            op_2mul_spec(values(old(current_stack)@)),
            left_of_one(values(old(current_stack)@), 1),
        ),
{
    let n: usize = match num_at(current_stack, 0) {
        Some(n) => n,
        None => { return give_up_1(current_stack, 1); },
    };
    match n.checked_mul(2) {
        Some(r) => {
            replace_top(current_stack, 1, StackEntry::Num(r));
            true
        },
        None => give_up_1(current_stack, 1),
    }
}

/// The stack after OP_2DIV; none where it fails.
pub open spec fn op_2div_spec(s: Seq<Value>) -> Option<Seq<Value>> {
    unary(s, |n: usize| Some(n / 2))
}

/// OP_2DIV: halves the number on top, rounding down.
pub fn op_2div(current_stack: &mut Vec<StackEntry>) -> (ok: bool)
    ensures
        applies_or_leaves(
            ok,
            final(current_stack)@,
            op_2div_spec(values(old(current_stack)@)),
            left_of_one(values(old(current_stack)@), 1),
        ),
{
    let n: usize = match num_at(current_stack, 0) {
        Some(n) => n,
        None => { return give_up_1(current_stack, 1); },
    };
    let r: usize = n / 2;
    replace_top(current_stack, 1, StackEntry::Num(r));
    true
}

/// The stack after OP_NOT; none where it fails.
pub open spec fn op_not_spec(s: Seq<Value>) -> Option<Seq<Value>> {
    unary(s, |n: usize| Some(if n == 0 { 1usize } else { 0usize }))
}

/// OP_NOT: replaces the number on top by one if it is zero, by zero otherwise.
pub fn op_not(current_stack: &mut Vec<StackEntry>) -> (ok: bool)
    ensures
        applies_or_leaves(
            ok,
            final(current_stack)@,
            op_not_spec(values(old(current_stack)@)),
            left_of_one(values(old(current_stack)@), 1),
        ),
{
    let n: usize = match num_at(current_stack, 0) {
        Some(n) => n,
        None => { return give_up_1(current_stack, 1); },
    };
    let r: usize = if n == 0 { 1usize } else { 0usize };
    replace_top(current_stack, 1, StackEntry::Num(r));
    true
}

/// The stack after OP_0NOTEQUAL; none where it fails.
pub open spec fn op_0notequal_spec(s: Seq<Value>) -> Option<Seq<Value>> {
    unary(s, |n: usize| Some(if n != 0 { 1usize } else { 0usize }))
}

/// OP_0NOTEQUAL: replaces the number on top by one unless it is zero.
pub fn op_0notequal(current_stack: &mut Vec<StackEntry>) -> (ok: bool)
    ensures
        applies_or_leaves(
            ok,
            final(current_stack)@,
            op_0notequal_spec(values(old(current_stack)@)),
            left_of_one(values(old(current_stack)@), 1),
        ),
{
    let n: usize = match num_at(current_stack, 0) {
        Some(n) => n,
        None => { return give_up_1(current_stack, 1); },
    };
    let r: usize = if n != 0 { 1usize } else { 0usize };
    replace_top(current_stack, 1, StackEntry::Num(r));
    true
}

/// The stack after OP_ADD; none where it fails.
pub open spec fn op_add_spec(s: Seq<Value>) -> Option<Seq<Value>> {
    binary(s, |n1: usize, n2: usize| if n1 + n2 <= usize::MAX {
        Some((n1 + n2) as usize)
    } else {
        None
    })
}

/// OP_ADD: replaces the two numbers on top by their sum; fails where it does not fit.
pub fn op_add(current_stack: &mut Vec<StackEntry>) -> (ok: bool)
    ensures
        applies_or_leaves(
            ok,
            final(current_stack)@,
            op_add_spec(values(old(current_stack)@)),
            left_of_two(values(old(current_stack)@), Kind::Num),
        ),
{
    let (n1, n2) = match (num_at(current_stack, 1), num_at(current_stack, 0)) {
        (Some(n1), Some(n2)) => (n1, n2),
        _ => { return give_up_2(current_stack, Kind::Num); },
    };
    match n1.checked_add(n2) {
        Some(r) => {
            replace_top(current_stack, 2, StackEntry::Num(r));
            true
        },
        None => give_up_2(current_stack, Kind::Num),
    }
}

/// The stack after OP_SUB; none where it fails.
pub open spec fn op_sub_spec(s: Seq<Value>) -> Option<Seq<Value>> {
    binary(s, |n1: usize, n2: usize| if n1 >= n2 {
        Some((n1 - n2) as usize)
    } else {
        None
    })
}

/// OP_SUB: replaces the two numbers on top, `n1` below `n2`, by `n1 - n2`; fails where
/// `n2` is the larger.
pub fn op_sub(current_stack: &mut Vec<StackEntry>) -> (ok: bool)
    ensures
        applies_or_leaves(
            ok,
            final(current_stack)@,
            op_sub_spec(values(old(current_stack)@)),
            left_of_two(values(old(current_stack)@), Kind::Num),
        ),
{
    let (n1, n2) = match (num_at(current_stack, 1), num_at(current_stack, 0)) {
        (Some(n1), Some(n2)) => (n1, n2),
        _ => { return give_up_2(current_stack, Kind::Num); },
    };
    match n1.checked_sub(n2) {
        Some(r) => {
            replace_top(current_stack, 2, StackEntry::Num(r));
            true
        },
        None => give_up_2(current_stack, Kind::Num),
    }
}

/// The stack after OP_MUL; none where it fails.
pub open spec fn op_mul_spec(s: Seq<Value>) -> Option<Seq<Value>> {
    binary(s, |n1: usize, n2: usize| if n1 * n2 <= usize::MAX {
        Some((n1 * n2) as usize)
    } else {
        None
    })
}

/// OP_MUL: replaces the two numbers on top by their product; fails where it does not
/// fit.
pub fn op_mul(current_stack: &mut Vec<StackEntry>) -> (ok: bool)
    ensures
        applies_or_leaves(
            ok,
            final(current_stack)@,
            op_mul_spec(values(old(current_stack)@)),
            left_of_two(values(old(current_stack)@), Kind::Num),
        ),
{
    let (n1, n2) = match (num_at(current_stack, 1), num_at(current_stack, 0)) {
        (Some(n1), Some(n2)) => (n1, n2),
        _ => { return give_up_2(current_stack, Kind::Num); },
    };
    match n1.checked_mul(n2) {
        Some(r) => {
            replace_top(current_stack, 2, StackEntry::Num(r));
            true
        },
        None => give_up_2(current_stack, Kind::Num),
    }
}

/// The stack after OP_DIV; none where it fails.
pub open spec fn op_div_spec(s: Seq<Value>) -> Option<Seq<Value>> {
    binary(s, |n1: usize, n2: usize| if n2 != 0 {
        Some(n1 / n2)
    } else {
        None
    })
}

/// OP_DIV: replaces the two numbers on top, `n1` below `n2`, by the quotient of `n1` by
/// `n2`; fails where `n2` is zero.
pub fn op_div(current_stack: &mut Vec<StackEntry>) -> (ok: bool)
    ensures
        applies_or_leaves(
            ok,
            final(current_stack)@,
            op_div_spec(values(old(current_stack)@)),
            left_of_two(values(old(current_stack)@), Kind::Num),
        ),
{
    let (n1, n2) = match (num_at(current_stack, 1), num_at(current_stack, 0)) {
        (Some(n1), Some(n2)) => (n1, n2),
        _ => { return give_up_2(current_stack, Kind::Num); },
    };
    match n1.checked_div(n2) {
        Some(r) => {
            replace_top(current_stack, 2, StackEntry::Num(r));
            true
        },
        None => give_up_2(current_stack, Kind::Num),
    }
}

/// The stack after OP_MOD; none where it fails.
pub open spec fn op_mod_spec(s: Seq<Value>) -> Option<Seq<Value>> {
    binary(s, |n1: usize, n2: usize| if n2 != 0 {
        Some(n1 % n2)
    } else {
        None
    })
}

/// OP_MOD: replaces the two numbers on top, `n1` below `n2`, by the remainder of `n1` by
/// `n2`; fails where `n2` is zero.
pub fn op_mod(current_stack: &mut Vec<StackEntry>) -> (ok: bool)
    ensures
        applies_or_leaves(
            ok,
            final(current_stack)@,
            op_mod_spec(values(old(current_stack)@)),
            left_of_two(values(old(current_stack)@), Kind::Num),
        ),
{
    let (n1, n2) = match (num_at(current_stack, 1), num_at(current_stack, 0)) {
        (Some(n1), Some(n2)) => (n1, n2),
        _ => { return give_up_2(current_stack, Kind::Num); },
    };
    match n1.checked_rem_euclid(n2) {
        Some(r) => {
            replace_top(current_stack, 2, StackEntry::Num(r));
            true
        },
        None => give_up_2(current_stack, Kind::Num),
    }
}

/// The amount that a shift operation moves by: the low 32 bits of the number
/// on top.
pub open spec fn shift_amount(n: usize) -> u32 {
    n as u32
}

/// The stack after OP_LSHIFT; none where it fails.
pub open spec fn op_lshift_spec(s: Seq<Value>) -> Option<Seq<Value>> {
    binary(s, |n1: usize, n2: usize| if shift_amount(n2) < usize::BITS {
        Some(n1 << shift_amount(n2))
    } else {
        None
    })
}

/// OP_LSHIFT: replaces the two numbers on top, `n1` below `n2`, by `n1` shifted left by
/// the low 32 bits of `n2`, bits that leave the word being lost; fails where that amount is
/// the width of a word or more.
pub fn op_lshift(current_stack: &mut Vec<StackEntry>) -> (ok: bool)
    ensures
        applies_or_leaves(
            ok,
            final(current_stack)@,
            op_lshift_spec(values(old(current_stack)@)),
            left_of_two(values(old(current_stack)@), Kind::Num),
        ),
{
    let (n1, n2) = match (num_at(current_stack, 1), num_at(current_stack, 0)) {
        (Some(n1), Some(n2)) => (n1, n2),
        _ => { return give_up_2(current_stack, Kind::Num); },
    };
    match shifted_left(n1, n2) {
        Some(r) => {
            replace_top(current_stack, 2, StackEntry::Num(r));
            true
        },
        None => give_up_2(current_stack, Kind::Num),
    }
}

/// The stack after OP_RSHIFT; none where it fails.
pub open spec fn op_rshift_spec(s: Seq<Value>) -> Option<Seq<Value>> {
    binary(s, |n1: usize, n2: usize| if shift_amount(n2) < usize::BITS {
        Some(n1 >> shift_amount(n2))
    } else {
        None
    })
}

/// OP_RSHIFT: replaces the two numbers on top, `n1` below `n2`, by `n1` shifted right by
/// the low 32 bits of `n2`; fails where that amount is the width of a word or more.
pub fn op_rshift(current_stack: &mut Vec<StackEntry>) -> (ok: bool)
    ensures
        applies_or_leaves(
            ok,
            final(current_stack)@,
            op_rshift_spec(values(old(current_stack)@)),
            left_of_two(values(old(current_stack)@), Kind::Num),
        ),
{
    let (n1, n2) = match (num_at(current_stack, 1), num_at(current_stack, 0)) {
        (Some(n1), Some(n2)) => (n1, n2),
        _ => { return give_up_2(current_stack, Kind::Num); },
    };
    match shifted_right(n1, n2) {
        Some(r) => {
            replace_top(current_stack, 2, StackEntry::Num(r));
            true
        },
        None => give_up_2(current_stack, Kind::Num),
    }
}

/// The stack after OP_BOOLAND; none where it fails.
pub open spec fn op_booland_spec(s: Seq<Value>) -> Option<Seq<Value>> {
    binary(s, |n1: usize, n2: usize| Some(if n1 != 0 && n2 != 0 { 1usize } else { 0usize }))
}

/// OP_BOOLAND: replaces the two numbers on top by one if neither is zero, by zero
/// otherwise.
pub fn op_booland(current_stack: &mut Vec<StackEntry>) -> (ok: bool)
    ensures
        applies_or_leaves(
            ok,
            final(current_stack)@,
            op_booland_spec(values(old(current_stack)@)),
            left_of_two(values(old(current_stack)@), Kind::Num),
        ),
{
    let (n1, n2) = match (num_at(current_stack, 1), num_at(current_stack, 0)) {
        (Some(n1), Some(n2)) => (n1, n2),
        _ => { return give_up_2(current_stack, Kind::Num); },
    };
    let r: usize = if n1 != 0 && n2 != 0 { 1usize } else { 0usize };
    replace_top(current_stack, 2, StackEntry::Num(r));
    true
}

/// The stack after OP_BOOLOR; none where it fails.
pub open spec fn op_boolor_spec(s: Seq<Value>) -> Option<Seq<Value>> {
    binary(s, |n1: usize, n2: usize| Some(if n1 != 0 || n2 != 0 { 1usize } else { 0usize }))
}

/// OP_BOOLOR: replaces the two numbers on top by one unless both are zero.
pub fn op_boolor(current_stack: &mut Vec<StackEntry>) -> (ok: bool)
    ensures
        applies_or_leaves(
            ok,
            final(current_stack)@,
            op_boolor_spec(values(old(current_stack)@)),
            left_of_two(values(old(current_stack)@), Kind::Num),
        ),
{
    let (n1, n2) = match (num_at(current_stack, 1), num_at(current_stack, 0)) {
        (Some(n1), Some(n2)) => (n1, n2),
        _ => { return give_up_2(current_stack, Kind::Num); },
    };
    let r: usize = if n1 != 0 || n2 != 0 { 1usize } else { 0usize };
    replace_top(current_stack, 2, StackEntry::Num(r));
    true
}

/// The stack after OP_NUMEQUAL; none where it fails.
pub open spec fn op_numequal_spec(s: Seq<Value>) -> Option<Seq<Value>> {
    binary(s, |n1: usize, n2: usize| Some(if n1 == n2 { 1usize } else { 0usize }))
}

/// OP_NUMEQUAL: replaces the two numbers on top by one if they are equal, by zero
/// otherwise.
pub fn op_numequal(current_stack: &mut Vec<StackEntry>) -> (ok: bool)
    ensures
        applies_or_leaves(
            ok,
            final(current_stack)@,
            op_numequal_spec(values(old(current_stack)@)),
            left_of_two(values(old(current_stack)@), Kind::Num),
        ),
{
    let (n1, n2) = match (num_at(current_stack, 1), num_at(current_stack, 0)) {
        (Some(n1), Some(n2)) => (n1, n2),
        _ => { return give_up_2(current_stack, Kind::Num); },
    };
    let r: usize = if n1 == n2 { 1usize } else { 0usize };
    replace_top(current_stack, 2, StackEntry::Num(r));
    true
}

/// The stack after OP_NUMNOTEQUAL; none where it fails.
pub open spec fn op_numnotequal_spec(s: Seq<Value>) -> Option<Seq<Value>> {
    binary(s, |n1: usize, n2: usize| Some(if n1 != n2 { 1usize } else { 0usize }))
}

/// OP_NUMNOTEQUAL: replaces the two numbers on top by one if they differ, by zero
/// otherwise.
pub fn op_numnotequal(current_stack: &mut Vec<StackEntry>) -> (ok: bool)
    ensures
        applies_or_leaves(
            ok,
            final(current_stack)@,
            op_numnotequal_spec(values(old(current_stack)@)),
            left_of_two(values(old(current_stack)@), Kind::Num),
        ),
{
    let (n1, n2) = match (num_at(current_stack, 1), num_at(current_stack, 0)) {
        (Some(n1), Some(n2)) => (n1, n2),
        _ => { return give_up_2(current_stack, Kind::Num); },
    };
    let r: usize = if n1 != n2 { 1usize } else { 0usize };
    replace_top(current_stack, 2, StackEntry::Num(r));
    true
}

/// The stack after OP_LESSTHAN; none where it fails.
pub open spec fn op_lessthan_spec(s: Seq<Value>) -> Option<Seq<Value>> {
    binary(s, |n1: usize, n2: usize| Some(if n1 < n2 { 1usize } else { 0usize }))
}

/// OP_LESSTHAN: replaces the two numbers on top, `n1` below `n2`, by one if `n1 < n2`, by
/// zero otherwise.
pub fn op_lessthan(current_stack: &mut Vec<StackEntry>) -> (ok: bool)
    ensures
        applies_or_leaves(
            ok,
            final(current_stack)@,
            op_lessthan_spec(values(old(current_stack)@)),
            left_of_two(values(old(current_stack)@), Kind::Num),
        ),
{
    let (n1, n2) = match (num_at(current_stack, 1), num_at(current_stack, 0)) {
        (Some(n1), Some(n2)) => (n1, n2),
        _ => { return give_up_2(current_stack, Kind::Num); },
    };
    let r: usize = if n1 < n2 { 1usize } else { 0usize };
    replace_top(current_stack, 2, StackEntry::Num(r));
    true
}

/// The stack after OP_GREATERTHAN; none where it fails.
pub open spec fn op_greaterthan_spec(s: Seq<Value>) -> Option<Seq<Value>> {
    binary(s, |n1: usize, n2: usize| Some(if n1 > n2 { 1usize } else { 0usize }))
}

/// OP_GREATERTHAN: replaces the two numbers on top, `n1` below `n2`, by one if `n1 > n2`,
/// by zero otherwise.
pub fn op_greaterthan(current_stack: &mut Vec<StackEntry>) -> (ok: bool)
    ensures
        applies_or_leaves(
            ok,
            final(current_stack)@,
            op_greaterthan_spec(values(old(current_stack)@)),
            left_of_two(values(old(current_stack)@), Kind::Num),
        ),
{
    let (n1, n2) = match (num_at(current_stack, 1), num_at(current_stack, 0)) {
        (Some(n1), Some(n2)) => (n1, n2),
        _ => { return give_up_2(current_stack, Kind::Num); },
    };
    let r: usize = if n1 > n2 { 1usize } else { 0usize };
    replace_top(current_stack, 2, StackEntry::Num(r));
    true
}

/// The stack after OP_LESSTHANOREQUAL; none where it fails.
pub open spec fn op_lessthanorequal_spec(s: Seq<Value>) -> Option<Seq<Value>> {
    binary(s, |n1: usize, n2: usize| Some(if n1 <= n2 { 1usize } else { 0usize }))
}

/// OP_LESSTHANOREQUAL: replaces the two numbers on top, `n1` below `n2`, by one if
/// `n1 <= n2`, by zero otherwise.
pub fn op_lessthanorequal(current_stack: &mut Vec<StackEntry>) -> (ok: bool)
    ensures
        applies_or_leaves(
            ok,
            final(current_stack)@,
            op_lessthanorequal_spec(values(old(current_stack)@)),
            left_of_two(values(old(current_stack)@), Kind::Num),
        ),
{
    let (n1, n2) = match (num_at(current_stack, 1), num_at(current_stack, 0)) {
        (Some(n1), Some(n2)) => (n1, n2),
        _ => { return give_up_2(current_stack, Kind::Num); },
    };
    let r: usize = if n1 <= n2 { 1usize } else { 0usize };
    replace_top(current_stack, 2, StackEntry::Num(r));
    true
}

/// The stack after OP_GREATERTHANOREQUAL; none where it fails.
pub open spec fn op_greaterthanorequal_spec(s: Seq<Value>) -> Option<Seq<Value>> {
    binary(s, |n1: usize, n2: usize| Some(if n1 >= n2 { 1usize } else { 0usize }))
}

/// OP_GREATERTHANOREQUAL: replaces the two numbers on top, `n1` below `n2`, by one if
/// `n1 >= n2`, by zero otherwise.
pub fn op_greaterthanorequal(current_stack: &mut Vec<StackEntry>) -> (ok: bool)
    ensures
        applies_or_leaves(
            ok,
            final(current_stack)@,
            op_greaterthanorequal_spec(values(old(current_stack)@)),
            left_of_two(values(old(current_stack)@), Kind::Num),
        ),
{
    let (n1, n2) = match (num_at(current_stack, 1), num_at(current_stack, 0)) {
        (Some(n1), Some(n2)) => (n1, n2),
        _ => { return give_up_2(current_stack, Kind::Num); },
    };
    let r: usize = if n1 >= n2 { 1usize } else { 0usize };
    replace_top(current_stack, 2, StackEntry::Num(r));
    true
}

/// The stack after OP_MIN; none where it fails.
pub open spec fn op_min_spec(s: Seq<Value>) -> Option<Seq<Value>> {
    binary(s, |n1: usize, n2: usize| Some(if n1 <= n2 { n1 } else { n2 }))
}

/// OP_MIN: replaces the two numbers on top by the smaller.
pub fn op_min(current_stack: &mut Vec<StackEntry>) -> (ok: bool)
    ensures
        applies_or_leaves(
            ok,
            final(current_stack)@,
            op_min_spec(values(old(current_stack)@)),
            left_of_two(values(old(current_stack)@), Kind::Num),
        ),
{
    let (n1, n2) = match (num_at(current_stack, 1), num_at(current_stack, 0)) {
        (Some(n1), Some(n2)) => (n1, n2),
        _ => { return give_up_2(current_stack, Kind::Num); },
    };
    let r: usize = if n1 <= n2 { n1 } else { n2 };
    replace_top(current_stack, 2, StackEntry::Num(r));
    true
}

/// The stack after OP_MAX; none where it fails.
pub open spec fn op_max_spec(s: Seq<Value>) -> Option<Seq<Value>> {
    binary(s, |n1: usize, n2: usize| Some(if n1 >= n2 { n1 } else { n2 }))
}

/// OP_MAX: replaces the two numbers on top by the larger.
pub fn op_max(current_stack: &mut Vec<StackEntry>) -> (ok: bool)
    ensures
        applies_or_leaves(
            ok,
            final(current_stack)@,
            op_max_spec(values(old(current_stack)@)),
            left_of_two(values(old(current_stack)@), Kind::Num),
        ),
{
    let (n1, n2) = match (num_at(current_stack, 1), num_at(current_stack, 0)) {
        (Some(n1), Some(n2)) => (n1, n2),
        _ => { return give_up_2(current_stack, Kind::Num); },
    };
    let r: usize = if n1 >= n2 { n1 } else { n2 };
    replace_top(current_stack, 2, StackEntry::Num(r));
    true
}

/// The stack after OP_NUMEQUALVERIFY; none where it fails.
pub open spec fn op_numequalverify_spec(s: Seq<Value>) -> Option<Seq<Value>> {
    match (number_at(s, 1), number_at(s, 0)) {
        (Some(n1), Some(n2)) => if n1 == n2 {
            Some(below(s, 2))
        } else {
            None
        },
        _ => None,
    }
}

/// OP_NUMEQUALVERIFY: removes the two numbers on top; fails unless they are equal.
pub fn op_numequalverify(current_stack: &mut Vec<StackEntry>) -> (ok: bool)
    ensures
        applies_or_leaves(
            ok,
            final(current_stack)@,
            op_numequalverify_spec(values(old(current_stack)@)),
            left_of_two(values(old(current_stack)@), Kind::Num),
        ),
{
    let (n1, n2) = match (num_at(current_stack, 1), num_at(current_stack, 0)) {
        (Some(n1), Some(n2)) => (n1, n2),
        _ => { return give_up_2(current_stack, Kind::Num); },
    };
    if n1 != n2 {
        return give_up_2(current_stack, Kind::Num);
    }
    discard(current_stack, 2);
    true
}

/// The stack after OP_WITHIN; none where it fails.
pub open spec fn op_within_spec(s: Seq<Value>) -> Option<Seq<Value>> {
    match (number_at(s, 2), number_at(s, 1), number_at(s, 0)) {
        (Some(n1), Some(n2), Some(n3)) => Some(
            replaced(s, 3, truth(n2 <= n1 < n3)),
        ),
        _ => None,
    }
}

/// OP_WITHIN: replaces the three numbers on top, `n1` lowest and `n3` highest, by one if
/// `n2 <= n1 < n3`, by zero otherwise.
pub fn op_within(current_stack: &mut Vec<StackEntry>) -> (ok: bool)
    ensures
        applies_or_leaves(
            ok,
            final(current_stack)@,
            op_within_spec(values(old(current_stack)@)),
            left_of_three(values(old(current_stack)@), Kind::Num, Kind::Num),
        ),
{
    let (n1, n2, n3) = match (
        num_at(current_stack, 2),
        num_at(current_stack, 1),
        num_at(current_stack, 0),
    ) {
        (Some(n1), Some(n2), Some(n3)) => (n1, n2, n3),
        _ => { return give_up_3(current_stack, Kind::Num, Kind::Num); },
    };
    let r: usize = if n1 >= n2 && n1 < n3 { 1usize } else { 0usize };
    replace_top(current_stack, 3, StackEntry::Num(r));
    true
}

/*---- FLOW CONTROL AND CONSTANTS ----*/

/// The stack after a constant opcode that pushes `n`.
pub open spec fn op_const_spec(s: Seq<Value>, n: usize) -> Option<Seq<Value>> {
    Some(s.push(Value::Num(n)))
}

/// OP_0 to OP_16: pushes the number that the opcode names.
pub fn op_const(current_stack: &mut Vec<StackEntry>, n: usize) -> (ok: bool)
    ensures
        applies(
            ok,
            old(current_stack)@,
            final(current_stack)@,
            op_const_spec(values(old(current_stack)@), n),
        ),
{
    push(current_stack, StackEntry::Num(n));
    true
}

/// The stack after OP_NOP; none where it fails.
pub open spec fn op_nop_spec(s: Seq<Value>) -> Option<Seq<Value>> {
    Some(s)
}

/// OP_NOP: does nothing.
pub fn op_nop(current_stack: &mut Vec<StackEntry>) -> (ok: bool)
    ensures
        applies(
            ok,
            old(current_stack)@,
            final(current_stack)@,
            op_nop_spec(values(old(current_stack)@)),
        ),
{
    true
}

/// The stack after OP_VERIFY; none where it fails.
pub open spec fn op_verify_spec(s: Seq<Value>) -> Option<Seq<Value>> {
    if s.len() >= 1 && peek(s, 0) != Value::Num(0) {
        Some(below(s, 1))
    } else {
        None
    }
}

/// OP_VERIFY: removes the top entry; fails where it is the number zero.
pub fn op_verify(current_stack: &mut Vec<StackEntry>) -> (ok: bool)
    ensures
        applies_or_leaves(
            ok,
            final(current_stack)@,
            op_verify_spec(values(old(current_stack)@)),
            left_of_one(values(old(current_stack)@), 1),
        ),
{
    if current_stack.len() < 1 {
        return give_up_1(current_stack, 1);
    }
    match &current_stack[current_stack.len() - 1] {
        StackEntry::Num(n) => {
            if *n == 0 {
                return give_up_1(current_stack, 1);
            }
        },
        _ => {},
    }
    discard(current_stack, 1);
    true
}

/// The stack after OP_RETURN; none where it fails.
pub open spec fn op_return_spec(s: Seq<Value>) -> Option<Seq<Value>> {
    None
}

/// OP_RETURN: fails, whatever the stack holds.
pub fn op_return(current_stack: &mut Vec<StackEntry>) -> (ok: bool)
    ensures
        applies(
            ok,
            old(current_stack)@,
            final(current_stack)@,
            op_return_spec(values(old(current_stack)@)),
        ),
{
    false
}

/*---- COMPARISON OF ENTRIES ----*/

/// The stack after OP_EQUAL; none where it fails.
pub open spec fn op_equal_spec(s: Seq<Value>) -> Option<Seq<Value>> {
    if s.len() >= 2 {
        Some(replaced(s, 2, truth(peek(s, 1) == peek(s, 0))))
    } else {
        None
    }
}

/// OP_EQUAL: replaces the two entries on top by one if they are equal, by zero otherwise.
pub fn op_equal(current_stack: &mut Vec<StackEntry>) -> (ok: bool)
    ensures
        applies(
            ok,
            old(current_stack)@,
            final(current_stack)@,
            op_equal_spec(values(old(current_stack)@)),
        ),
{
    let len: usize = current_stack.len();
    if len < 2 {
        return false;
    }
    let same: bool = current_stack[len - 2] == current_stack[len - 1];
    let r: usize = if same { 1usize } else { 0usize };
    replace_top(current_stack, 2, StackEntry::Num(r));
    true
}

/// The stack after OP_EQUALVERIFY; none where it fails.
pub open spec fn op_equalverify_spec(s: Seq<Value>) -> Option<Seq<Value>> {
    if s.len() >= 2 && peek(s, 1) == peek(s, 0) {
        Some(below(s, 2))
    } else {
        None
    }
}

/// OP_EQUALVERIFY: removes the two entries on top; fails unless they are equal.
pub fn op_equalverify(current_stack: &mut Vec<StackEntry>) -> (ok: bool)
    ensures
        applies_or_leaves(
            ok,
            final(current_stack)@,
            op_equalverify_spec(values(old(current_stack)@)),
            left_of_two(values(old(current_stack)@), Kind::Any),
        ),
{
    let len: usize = current_stack.len();
    if len < 2 {
        return give_up_2(current_stack, Kind::Any);
    }
    let same: bool = current_stack[len - 2] == current_stack[len - 1];
    if !same {
        return give_up_2(current_stack, Kind::Any);
    }
    discard(current_stack, 2);
    true
}

/*---- SPLICE OPS ----*/

/// The byte string `depth` places below the top of `s`, if there is an entry
/// at that depth and it is one.
pub open spec fn text_at(s: Seq<Value>, depth: int) -> Option<Seq<char>> {
    if 0 <= depth < s.len() && peek(s, depth) is Bytes {
        Some(peek(s, depth)->Bytes_0)
    } else {
        None
    }
}

/// The text whose bytes are those of `text` from `from` up to `to`. There is
/// none where the range leaves the text, or where one of its ends falls
/// inside the bytes of a character.
pub open spec fn slice_of(text: Seq<char>, from: int, to: int) -> Option<Seq<char>> {
    let bytes = encode_utf8(text);
    if 0 <= from <= to <= bytes.len() && is_char_boundary(bytes, from) && is_char_boundary(
        bytes,
        to,
    ) {
        Some(decode_utf8(bytes.subrange(from, to)))
    } else {
        None
    }
}

/// The byte string `depth` places below the top, if there is one.
fn text_ref(stack: &Vec<StackEntry>, depth: usize) -> (text: Option<&String>)
    ensures
        match text_at(values(stack@), depth as int) {
            Some(t) => text is Some && text->0@ == t,
            None => text is None,
        },
{
    let len: usize = stack.len();
    if depth >= len {
        return None;
    }
    match &stack[len - 1 - depth] {
        StackEntry::Bytes(text) => Some(text),
        _ => None,
    }
}

/// Cuts the bytes from `from` up to `to` out of `text`.
fn cut(text: &str, from: usize, to: usize) -> (piece: Option<String>)
    ensures
        match slice_of(text@, from as int, to as int) {
            Some(t) => piece is Some && piece->0@ == t,
            None => piece is None,
        },
{
    if from > to || to > text_len(text) {
        return None;
    }
    if !text.is_char_boundary(from) || !text.is_char_boundary(to) {
        return None;
    }
    let ghost bytes = encode_utf8(text@);
    let (head, _) = text.split_at(to);
    proof {
        encode_utf8_valid_utf8(text@);
        encode_utf8_valid_utf8(head@);
        if from < to {
            is_char_boundary_iff_not_is_continuation_byte(bytes, from as int);
            is_char_boundary_iff_not_is_continuation_byte(encode_utf8(head@), from as int);
        } else {
            is_char_boundary_start_end_of_seq(encode_utf8(head@));
        }
    }
    let (_, piece) = head.split_at(from);
    proof {
        encode_utf8_decode_utf8(piece@);
        assert(encode_utf8(piece@) =~= bytes.subrange(from as int, to as int));
    }
    Some(piece.to_owned())
}

/// The stack after OP_CAT; none where it fails.
pub open spec fn op_cat_spec(s: Seq<Value>) -> Option<Seq<Value>> {
    match (text_at(s, 1), text_at(s, 0)) {
        (Some(t1), Some(t2)) => if byte_len(t1) + byte_len(t2) <= MAX_SCRIPT_ELEMENT_SIZE {
            Some(replaced(s, 2, Value::Bytes(t1 + t2)))
        } else {
            None
        },
        _ => None,
    }
}

/// OP_CAT: replaces the two byte strings on top by the lower one followed by the upper
/// one; fails where they have more bytes together than a byte string may have.
pub fn op_cat(current_stack: &mut Vec<StackEntry>) -> (ok: bool)
    ensures
        applies_or_leaves(
            ok,
            final(current_stack)@,
            op_cat_spec(values(old(current_stack)@)),
            left_of_two(values(old(current_stack)@), Kind::Bytes),
        ),
{
    let joined: String = match (text_ref(current_stack, 1), text_ref(current_stack, 0)) {
        (Some(t1), Some(t2)) => {
            let l1: usize = text_len(t1.as_str());
            let l2: usize = text_len(t2.as_str());
            if l1 > MAX_SCRIPT_ELEMENT_SIZE || l2 > MAX_SCRIPT_ELEMENT_SIZE - l1 {
                return give_up_2(current_stack, Kind::Bytes);
            }
            let mut joined: String = t1.clone();
            joined.append(t2.as_str());
            joined
        },
        _ => { return give_up_2(current_stack, Kind::Bytes); },
    };
    replace_top(current_stack, 2, StackEntry::Bytes(joined));
    true
}

/// The stack after OP_SUBSTR; none where it fails.
pub open spec fn op_substr_spec(s: Seq<Value>) -> Option<Seq<Value>> {
    match (text_at(s, 2), number_at(s, 1), number_at(s, 0)) {
        (Some(t), Some(n1), Some(n2)) => if n1 < byte_len(t) && n2 <= byte_len(t) {
            match slice_of(t, n1 as int, n1 + n2) {
                Some(piece) => Some(replaced(s, 3, Value::Bytes(piece))),
                None => None,
            }
        } else {
            None
        },
        _ => None,
    }
}

/// OP_SUBSTR: replaces a byte string and the numbers `n1` and `n2` above it, `n2` on top,
/// by the `n2` bytes of the string that start at byte `n1`. Fails where `n1` is not less
/// than the length of the string, where `n2` or `n1 + n2` is more than it, and where the
/// bytes asked for are not whole characters.
pub fn op_substr(current_stack: &mut Vec<StackEntry>) -> (ok: bool)
    ensures
        applies_or_leaves(
            ok,
            final(current_stack)@,
            op_substr_spec(values(old(current_stack)@)),
            left_of_three(values(old(current_stack)@), Kind::Num, Kind::Num),
        ),
{
    let piece: String = match (
        text_ref(current_stack, 2),
        num_at(current_stack, 1),
        num_at(current_stack, 0),
    ) {
        (Some(t), Some(n1), Some(n2)) => {
            let len: usize = text_len(t.as_str());
            if n1 >= len || n2 > len - n1 {
                return give_up_3(current_stack, Kind::Num, Kind::Num);
            }
            match cut(t.as_str(), n1, n1 + n2) {
                Some(piece) => piece,
                None => { return give_up_3(current_stack, Kind::Num, Kind::Num); },
            }
        },
        _ => { return give_up_3(current_stack, Kind::Num, Kind::Num); },
    };
    replace_top(current_stack, 3, StackEntry::Bytes(piece));
    true
}

/// The stack after OP_LEFT; none where it fails.
pub open spec fn op_left_spec(s: Seq<Value>) -> Option<Seq<Value>> {
    match (text_at(s, 1), number_at(s, 0)) {
        (Some(t), Some(n)) => if n >= byte_len(t) {
            Some(replaced(s, 2, Value::Bytes(t)))
        } else {
            match slice_of(t, 0, n as int) {
                Some(piece) => Some(replaced(s, 2, Value::Bytes(piece))),
                None => None,
            }
        },
        _ => None,
    }
}

/// OP_LEFT: replaces a byte string and the number `n` above it by the first `n` bytes of
/// the string, or by the whole string where it has no more than `n` bytes. Fails where
/// the bytes asked for are not whole characters.
pub fn op_left(current_stack: &mut Vec<StackEntry>) -> (ok: bool)
    ensures
        applies_or_leaves(
            ok,
            final(current_stack)@,
            op_left_spec(values(old(current_stack)@)),
            left_of_two(values(old(current_stack)@), Kind::Num),
        ),
{
    let piece: String = match (text_ref(current_stack, 1), num_at(current_stack, 0)) {
        (Some(t), Some(n)) => {
            if n >= text_len(t.as_str()) {
                t.clone()
            } else {
                match cut(t.as_str(), 0, n) {
                    Some(piece) => piece,
                    None => { return give_up_2(current_stack, Kind::Num); },
                }
            }
        },
        _ => { return give_up_2(current_stack, Kind::Num); },
    };
    replace_top(current_stack, 2, StackEntry::Bytes(piece));
    true
}

/// The stack after OP_RIGHT; none where it fails.
pub open spec fn op_right_spec(s: Seq<Value>) -> Option<Seq<Value>> {
    match (text_at(s, 1), number_at(s, 0)) {
        (Some(t), Some(n)) => if n >= byte_len(t) {
            Some(replaced(s, 2, Value::Bytes(Seq::empty())))
        } else {
            match slice_of(t, n as int, byte_len(t) as int) {
                Some(piece) => Some(replaced(s, 2, Value::Bytes(piece))),
                None => None,
            }
        },
        _ => None,
    }
}

/// OP_RIGHT: replaces a byte string and the number `n` above it by the bytes of the
/// string from byte `n` on, or by the empty string where it has no more than `n` bytes.
/// Fails where the bytes asked for are not whole characters.
pub fn op_right(current_stack: &mut Vec<StackEntry>) -> (ok: bool)
    ensures
        applies_or_leaves(
            ok,
            final(current_stack)@,
            op_right_spec(values(old(current_stack)@)),
            left_of_two(values(old(current_stack)@), Kind::Num),
        ),
{
    let piece: String = match (text_ref(current_stack, 1), num_at(current_stack, 0)) {
        (Some(t), Some(n)) => {
            let len: usize = text_len(t.as_str());
            if n >= len {
                String::new()
            } else {
                match cut(t.as_str(), n, len) {
                    Some(piece) => piece,
                    None => { return give_up_2(current_stack, Kind::Num); },
                }
            }
        },
        _ => { return give_up_2(current_stack, Kind::Num); },
    };
    replace_top(current_stack, 2, StackEntry::Bytes(piece));
    true
}

/// The stack after OP_SIZE; none where it fails.
pub open spec fn op_size_spec(s: Seq<Value>) -> Option<Seq<Value>> {
    match text_at(s, 0) {
        Some(t) => Some(s.push(Value::Num(byte_len(t) as usize))),
        None => None,
    }
}

/// OP_SIZE: pushes the number of bytes of the byte string on top, which stays.
pub fn op_size(current_stack: &mut Vec<StackEntry>) -> (ok: bool)
    ensures
        applies(
            ok,
            old(current_stack)@,
            final(current_stack)@,
            op_size_spec(values(old(current_stack)@)),
        ),
{
    let size: usize = match text_ref(current_stack, 0) {
        Some(t) => text_len(t.as_str()),
        None => { return false; },
    };
    push(current_stack, StackEntry::Num(size));
    true
}

/*---- CRYPTO OPS ----*/

/// The stack after OP_SHA3; none where it fails.
pub open spec fn op_sha3_spec(s: Seq<Value>) -> Option<Seq<Value>> {
    match text_at(s, 0) {
        Some(t) => Some(replaced(s, 1, Value::Bytes(hex_text(sha3_256_of(encode_utf8(t)))))),
        None => None,
    }
}

/// OP_SHA3: replaces the byte string on top by the hexadecimal text of its
/// SHA3-256 digest.
pub fn op_sha3(current_stack: &mut Vec<StackEntry>) -> (ok: bool)
    ensures
        applies_or_leaves(
            ok,
            final(current_stack)@,
            op_sha3_spec(values(old(current_stack)@)),
            left_of_one(values(old(current_stack)@), 1),
        ),
{
    let text: String = match text_ref(current_stack, 0) {
        Some(t) => {
            let hash = sha3_256::digest(t.as_str().as_bytes());
            hex_encode(hash.as_slice())
        },
        None => { return give_up_1(current_stack, 1); },
    };
    replace_top(current_stack, 1, StackEntry::Bytes(text));
    true
}

/// The stack after an opcode that derives an address under the scheme that
/// `address_version` selects; none where it fails.
pub open spec fn op_hash256_spec(s: Seq<Value>, address_version: Option<u64>) -> Option<
    Seq<Value>,
> {
    if s.len() >= 1 && peek(s, 0) is PubKey {
        Some(replaced(s, 1, Value::PubKeyHash(address_for(peek(s, 0)->PubKey_0, address_version))))
    } else {
        None
    }
}

/// OP_HASH256, OP_HASH256V0 and OP_HASH256TEMP: replaces the public key on
/// top by its address under the scheme that `address_version` selects.
pub fn op_hash256(current_stack: &mut Vec<StackEntry>, address_version: Option<u64>) -> (ok: bool)
    ensures
        applies_or_leaves(
            ok,
            final(current_stack)@,
            op_hash256_spec(values(old(current_stack)@), address_version),
            left_of_one(values(old(current_stack)@), 1),
        ),
{
    let len: usize = current_stack.len();
    if len < 1 {
        return give_up_1(current_stack, 1);
    }
    let address: String = match &current_stack[len - 1] {
        StackEntry::PubKey(key) => construct_address_for(key, address_version),
        _ => { return give_up_1(current_stack, 1); },
    };
    replace_top(current_stack, 1, StackEntry::PubKeyHash(address));
    true
}

/// The message, the signature and the public key that a signature check
/// reads from the top of `s`, the key on top, if the three are there.
pub open spec fn signed_message(s: Seq<Value>) -> Option<(Seq<char>, Seq<u8>, Seq<u8>)> {
    if s.len() >= 3 && peek(s, 2) is Bytes && peek(s, 1) is Signature && peek(s, 0) is PubKey {
        Some((peek(s, 2)->Bytes_0, peek(s, 1)->Signature_0, peek(s, 0)->PubKey_0))
    } else {
        None
    }
}

/// The stack after OP_CHECKSIG; none where it fails.
pub open spec fn op_checksig_spec(s: Seq<Value>) -> Option<Seq<Value>> {
    match signed_message(s) {
        Some((msg, sig, key)) => if ed25519_valid(sig, encode_utf8(msg), key) {
            Some(below(s, 3))
        } else {
            None
        },
        None => None,
    }
}

/// The stack after the check of one member's signature; none where it fails.
pub open spec fn op_checkmultisigmem_spec(s: Seq<Value>) -> Option<Seq<Value>> {
    op_checksig_spec(s)
}

/// The stack that a signature check leaves where it fails: the key, the
/// signature and the byte string are taken off before the signature is
/// checked, so that a signature that does not verify leaves what lay below
/// the three.
pub open spec fn op_checksig_left(s: Seq<Value>) -> Seq<Value> {
    left_of_three(s, Kind::PubKey, Kind::Signature)
}

/// OP_CHECKSIG and OP_CHECKSIGVERIFY: removes a byte string, a signature and
/// a public key, the key on top, and fails unless the signature is one of
/// the bytes of the string under the key; the three are removed whether it
/// is or not. Nothing is pushed: the check has verified its own outcome.
pub fn op_checksig(current_stack: &mut Vec<StackEntry>) -> (ok: bool)
    ensures
        applies_or_leaves(
            ok,
            final(current_stack)@,
            op_checksig_spec(values(old(current_stack)@)),
            op_checksig_left(values(old(current_stack)@)),
        ),
        signed_message(values(old(current_stack)@)) is Some ==> values(final(current_stack)@)
            == below(values(old(current_stack)@), 3),
{
    let len: usize = current_stack.len();
    if len < 3 {
        return false;
    }
    let valid: bool = match (
        &current_stack[len - 3],
        &current_stack[len - 2],
        &current_stack[len - 1],
    ) {
        (StackEntry::Bytes(msg), StackEntry::Signature(sig), StackEntry::PubKey(key)) => {
            verify_detached(sig, msg.as_str().as_bytes(), key)
        },
        _ => {
            return give_up_3(current_stack, Kind::PubKey, Kind::Signature);
        },
    };
    discard(current_stack, 3);
    valid
}

/// The check of one member's signature in a multi-signature: as OP_CHECKSIG.
pub fn op_checkmultisigmem(current_stack: &mut Vec<StackEntry>) -> (ok: bool)
    ensures
        applies_or_leaves(
            ok,
            final(current_stack)@,
            op_checkmultisigmem_spec(values(old(current_stack)@)),
            op_checksig_left(values(old(current_stack)@)),
        ),
        signed_message(values(old(current_stack)@)) is Some ==> values(final(current_stack)@)
            == below(values(old(current_stack)@), 3),
{
    op_checksig(current_stack)
}

/// Whether `sig` is a signature of `msg` under one of `keys`.
pub open spec fn signed_by_one_of(sig: Seq<u8>, msg: Seq<u8>, keys: Seq<Seq<u8>>) -> bool {
    exists|j: int| 0 <= j < keys.len() && ed25519_valid(sig, msg, #[trigger] keys[j])
}

/// How many of `sigs` are signatures of `msg` under one of `keys`. A
/// signature counts once, however many of the keys it verifies under.
pub open spec fn matching_signatures(sigs: Seq<Seq<u8>>, msg: Seq<u8>, keys: Seq<Seq<u8>>) -> nat
    decreases sigs.len(),
{
    if sigs.len() == 0 {
        0
    } else {
        matching_signatures(sigs.drop_last(), msg, keys) + if signed_by_one_of(
            sigs.last(),
            msg,
            keys,
        ) {
            1nat
        } else {
            0nat
        }
    }
}

/// Whether `sig` is a signature of `msg` under one of `pub_keys`: the keys
/// are tried in order, up to the first under which it verifies.
fn verifies_under_one(sig: &Signature, msg: &[u8], pub_keys: &Vec<PublicKey>) -> (found: bool)
    ensures
        found == signed_by_one_of(sig@, msg@, key_bytes(pub_keys@)),
{
    let mut j: usize = 0;
    while j < pub_keys.len()
        invariant
            j <= pub_keys@.len(),
            forall|i: int|
                0 <= i < j ==> !ed25519_valid(sig@, msg@, #[trigger] key_bytes(pub_keys@)[i]),
        decreases pub_keys@.len() - j,
    {
        if verify_detached(sig, msg, &pub_keys[j]) {
            assert(ed25519_valid(sig@, msg@, key_bytes(pub_keys@)[j as int]));
            return true;
        }
        j += 1;
    }
    false
}

/// Whether at least `m` of `signatures` are signatures of `check_data` under
/// one of `pub_keys`.
pub fn match_on_multisig_to_pubkey(
    check_data: String,
    signatures: Vec<Signature>,
    pub_keys: Vec<PublicKey>,
    m: usize,
) -> (enough: bool)
    ensures
        enough == (matching_signatures(
            signature_bytes(signatures@),
            encode_utf8(check_data@),
            key_bytes(pub_keys@),
        ) >= m),
{
    let msg = check_data.as_str().as_bytes();
    let mut counter: usize = 0;
    let mut i: usize = 0;
    while i < signatures.len()
        invariant
            i <= signatures@.len(),
            msg@ == encode_utf8(check_data@),
            counter == matching_signatures(
                signature_bytes(signatures@).subrange(0, i as int),
                msg@,
                key_bytes(pub_keys@),
            ),
            counter <= i,
        decreases signatures@.len() - i,
    {
        let found = verifies_under_one(&signatures[i], msg, &pub_keys);
        proof {
            let all = signature_bytes(signatures@);
            assert(all.subrange(0, i + 1).drop_last() =~= all.subrange(0, i as int));
        }
        if found {
            counter += 1;
        }
        i += 1;
    }
    assert(signature_bytes(signatures@).subrange(0, i as int) =~= signature_bytes(signatures@));
    counter >= m
}

/// Whether the `count` topmost entries of `s` are all public keys.
pub open spec fn keys_on_top(s: Seq<Value>, count: int) -> bool {
    0 <= count <= s.len() && forall|i: int| s.len() - count <= i < s.len() ==> s[i] is PubKey
}

/// The number of signatures that lie on top of `s` with nothing else between
/// them.
pub open spec fn signatures_on_top(s: Seq<Value>) -> nat
    decreases s.len(),
{
    if s.len() > 0 && s.last() is Signature {
        1 + signatures_on_top(s.drop_last())
    } else {
        0
    }
}

/// The bytes of each entry of `s`, all of them public keys.
pub open spec fn keys_of(s: Seq<Value>) -> Seq<Seq<u8>> {
    s.map_values(|v: Value| v->PubKey_0)
}

/// The bytes of each entry of `s`, all of them signatures.
pub open spec fn signatures_of(s: Seq<Value>) -> Seq<Seq<u8>> {
    s.map_values(|v: Value| v->Signature_0)
}

/// The stack after OP_CHECKMULTISIG: below the top lie the number `n` of keys, the
/// `n` keys, the number `m` of signatures asked for, the signatures, and the data
/// that was signed. None where one of these is missing, where `m > n`, and where
/// fewer than `m` of the signatures verify.
pub open spec fn op_multisig_spec(s: Seq<Value>) -> Option<Seq<Value>> {
    match number_at(s, 0) {
        Some(n) => {
            let s1 = below(s, 1);
            if keys_on_top(s1, n as int) {
                let keys = keys_of(top(s1, n as int));
                let s2 = below(s1, n as int);
                match number_at(s2, 0) {
                    Some(m) => {
                        let s3 = below(s2, 1);
                        let k = signatures_on_top(s3) as int;
                        let sigs = signatures_of(top(s3, k));
                        let s4 = below(s3, k);
                        match text_at(s4, 0) {
                            Some(msg) => if m <= n && matching_signatures(
                                sigs,
                                encode_utf8(msg),
                                keys,
                            ) >= m {
                                Some(below(s4, 1))
                            } else {
                                None
                            },
                            None => None,
                        }
                    },
                    None => None,
                }
            } else {
                None
            }
        },
        None => None,
    }
}

/// The public keys at the indices from `from` up to `to`, if every entry
/// there is one.
fn collect_keys(stack: &Vec<StackEntry>, from: usize, to: usize) -> (keys: Option<Vec<PublicKey>>)
    requires
        from <= to <= stack@.len(),
    ensures
        keys is Some <==> forall|i: int| from <= i < to ==> values(stack@)[i] is PubKey,
        keys is Some ==> key_bytes(keys->0@) == keys_of(
            values(stack@).subrange(from as int, to as int),
        ),
{
    let mut keys: Vec<PublicKey> = Vec::new();
    let mut i: usize = from;
    while i < to
        invariant
            from <= i <= to <= stack@.len(),
            keys@.len() == i - from,
            forall|j: int| from <= j < i ==> values(stack@)[j] is PubKey,
            key_bytes(keys@) == keys_of(values(stack@).subrange(from as int, i as int)),
        decreases to - i,
    {
        let ghost before = keys@;
        match &stack[i] {
            StackEntry::PubKey(key) => {
                keys.push(*key);
            },
            _ => {
                assert(!(values(stack@)[i as int] is PubKey));
                return None;
            },
        }
        proof {
            let found = key_bytes(before);
            let wanted = keys_of(values(stack@).subrange(from as int, i + 1));
            assert forall|j: int| 0 <= j < wanted.len() implies key_bytes(keys@)[j]
                == wanted[j] by {
                if j < i - from {
                    assert(key_bytes(keys@)[j] == found[j]);
                    assert(found[j] == keys_of(values(stack@).subrange(from as int, i as int))[j]);
                }
            }
            assert(key_bytes(keys@) =~= wanted);
        }
        i += 1;
    }
    Some(keys)
}

/// The index of the lowest of the signatures that lie on top of the first
/// `end` entries of `stack`.
fn first_signature(stack: &Vec<StackEntry>, end: usize) -> (start: usize)
    requires
        end <= stack@.len(),
    ensures
        start <= end,
        end - start == signatures_on_top(values(stack@).subrange(0, end as int)),
        forall|j: int| start <= j < end ==> values(stack@)[j] is Signature,
{
    let ghost s = values(stack@).subrange(0, end as int);
    let mut start: usize = end;
    assert(s.subrange(0, end as int) =~= s);
    while start > 0 && is_signature(&stack[start - 1])
        invariant
            start <= end <= stack@.len(),
            s == values(stack@).subrange(0, end as int),
            signatures_on_top(s) == signatures_on_top(s.subrange(0, start as int)) + (end - start),
            forall|j: int| start <= j < end ==> values(stack@)[j] is Signature,
        decreases start,
    {
        proof {
            let t = s.subrange(0, start as int);
            assert(t.last() == stack@[start - 1]@);
            assert(t.drop_last() =~= s.subrange(0, start - 1));
        }
        start -= 1;
    }
    proof {
        let t = s.subrange(0, start as int);
        if start > 0 {
            assert(t.last() == stack@[start - 1]@);
        }
    }
    start
}

/// The signatures at the indices from `from` up to `to`, all of which hold
/// one.
fn collect_signatures(stack: &Vec<StackEntry>, from: usize, to: usize) -> (sigs: Vec<Signature>)
    requires
        from <= to <= stack@.len(),
        forall|j: int| from <= j < to ==> values(stack@)[j] is Signature,
    ensures
        signature_bytes(sigs@) == signatures_of(values(stack@).subrange(from as int, to as int)),
{
    let mut sigs: Vec<Signature> = Vec::new();
    let mut i: usize = from;
    while i < to
        invariant
            from <= i <= to <= stack@.len(),
            sigs@.len() == i - from,
            forall|j: int| from <= j < to ==> values(stack@)[j] is Signature,
            signature_bytes(sigs@) == signatures_of(values(stack@).subrange(from as int, i as int)),
        decreases to - i,
    {
        let ghost before = sigs@;
        match &stack[i] {
            StackEntry::Signature(sig) => {
                sigs.push(*sig);
            },
            _ => {
                assert(values(stack@)[i as int] is Signature);
            },
        }
        proof {
            let found = signature_bytes(before);
            let wanted = signatures_of(values(stack@).subrange(from as int, i + 1));
            assert forall|j: int| 0 <= j < wanted.len() implies signature_bytes(sigs@)[j]
                == wanted[j] by {
                if j < i - from {
                    assert(signature_bytes(sigs@)[j] == found[j]);
                    assert(found[j] == signatures_of(
                        values(stack@).subrange(from as int, i as int),
                    )[j]);
                }
            }
            assert(signature_bytes(sigs@) =~= wanted);
        }
        i += 1;
    }
    sigs
}

/// Whether `entry` is a signature.
fn is_signature(entry: &StackEntry) -> (yes: bool)
    ensures
        yes == (entry@ is Signature),
{
    match entry {
        StackEntry::Signature(_) => true,
        _ => false,
    }
}

/// The number of public keys that lie on top of `s` with nothing else
/// between them, counted up to `limit`.
pub open spec fn keys_run(s: Seq<Value>, limit: int) -> nat
    decreases s.len(),
{
    if limit > 0 && s.len() > 0 && s.last() is PubKey {
        1 + keys_run(s.drop_last(), limit - 1)
    } else {
        0
    }
}

/// The stack that OP_CHECKMULTISIG leaves where it fails. It takes off the
/// number `n`, then public keys up to `n` of them, and fails if there are
/// fewer; then the number `m`, and fails if `m > n`; then the signatures
/// that follow and the byte string, and fails if too few of the signatures
/// verify. An entry of the wrong kind where a number or the byte string is
/// due is taken off before the failure; a stack that ends there is left as
/// it is by then.
pub open spec fn op_multisig_left(s: Seq<Value>) -> Seq<Value> {
    match number_at(s, 0) {
        Some(n) => {
            let s1 = below(s, 1);
            if keys_on_top(s1, n as int) {
                let s2 = below(s1, n as int);
                match number_at(s2, 0) {
                    Some(m) => {
                        let s3 = below(s2, 1);
                        if m > n {
                            s3
                        } else {
                            let s4 = below(s3, signatures_on_top(s3) as int);
                            match text_at(s4, 0) {
                                Some(_) => below(s4, 1),
                                None => left_of_one(s4, 1),
                            }
                        }
                    },
                    None => left_of_one(s2, 1),
                }
            } else {
                below(s1, keys_run(s1, n as int) as int)
            }
        },
        None => left_of_one(s, 1),
    }
}

/// Whether `entry` is a public key.
fn is_key(entry: &StackEntry) -> (yes: bool)
    ensures
        yes == (entry@ is PubKey),
{
    match entry {
        StackEntry::PubKey(_) => true,
        _ => false,
    }
}

/// The index of the lowest of the public keys that lie on top of the first
/// `end` entries of `stack`, no more than `limit` of them counted.
fn first_key(stack: &Vec<StackEntry>, end: usize, limit: usize) -> (start: usize)
    requires
        end <= stack@.len(),
    ensures
        start <= end,
        end - start <= limit,
        end - start == keys_run(values(stack@).subrange(0, end as int), limit as int),
        forall|j: int| start <= j < end ==> values(stack@)[j] is PubKey,
        end - start < limit && start > 0 ==> !(values(stack@)[start - 1] is PubKey),
{
    let ghost s = values(stack@).subrange(0, end as int);
    let mut start: usize = end;
    assert(s.subrange(0, end as int) =~= s);
    while end - start < limit && start > 0 && is_key(&stack[start - 1])
        invariant
            start <= end <= stack@.len(),
            end - start <= limit,
            s == values(stack@).subrange(0, end as int),
            keys_run(s, limit as int) == keys_run(
                s.subrange(0, start as int),
                limit - (end - start),
            ) + (end - start),
            forall|j: int| start <= j < end ==> values(stack@)[j] is PubKey,
        decreases start,
    {
        proof {
            let t = s.subrange(0, start as int);
            assert(t.last() == stack@[start - 1]@);
            assert(t.drop_last() =~= s.subrange(0, start - 1));
        }
        start -= 1;
    }
    proof {
        let t = s.subrange(0, start as int);
        if start > 0 {
            assert(t.last() == stack@[start - 1]@);
        }
    }
    start
}

/// OP_CHECKMULTISIG and OP_CHECKMULTISIGVERIFY: removes the number `n`, `n`
/// public keys, the number `m`, the signatures that follow, and a byte
/// string. Fails where one of these is missing, where `m > n`, and where
/// fewer than `m` of the signatures are signatures of the bytes of the string
/// under one of the keys; what was removed by then stays removed. Nothing is
/// pushed.
#[verifier::rlimit(40)]
pub fn op_multisig(current_stack: &mut Vec<StackEntry>) -> (ok: bool)
    ensures
        applies_or_leaves(
            ok,
            final(current_stack)@,
            op_multisig_spec(values(old(current_stack)@)),
            op_multisig_left(values(old(current_stack)@)),
        ),
{
    let len: usize = current_stack.len();
    let ghost s = values(current_stack@);
    let n: usize = match num_at(current_stack, 0) {
        Some(n) => n,
        None => { return give_up_1(current_stack, 1); },
    };
    let keys_from: usize = first_key(current_stack, len - 1, n);
    let found: usize = len - 1 - keys_from;
    proof {
        let s1 = below(s, 1);
        assert(s1 =~= s.subrange(0, len - 1));
        assert(keys_on_top(s1, n as int) <==> found == n) by {
            if keys_on_top(s1, n as int) && found < n {
                assert(s1[keys_from - 1] is PubKey);
            }
            if found == n {
                assert forall|i: int| s1.len() - n <= i < s1.len() implies s1[i] is PubKey by {
                    assert(s[i] is PubKey);
                }
            }
        }
        if found == n {
            assert(top(s1, n as int) =~= s.subrange(keys_from as int, len - 1));
            assert(below(s1, n as int) =~= s.subrange(0, keys_from as int));
        }
    }
    if found < n {
        discard(current_stack, 1 + found);
        assert(values(current_stack@) =~= below(below(s, 1), found as int));
        return false;
    }
    let pub_keys: Vec<PublicKey> = match collect_keys(current_stack, keys_from, len - 1) {
        Some(keys) => keys,
        None => {
            discard(current_stack, 1 + found);
            return false;
        },
    };
    let ghost s2 = below(below(s, 1), n as int);
    if keys_from < 1 {
        discard(current_stack, 1 + n);
        assert(values(current_stack@) =~= s2);
        return false;
    }
    let m: usize = match &current_stack[keys_from - 1] {
        StackEntry::Num(m) => *m,
        _ => {
            discard(current_stack, 2 + n);
            assert(values(current_stack@) =~= below(s2, 1));
            return false;
        },
    };
    let ghost s3 = below(s2, 1);
    if m > n {
        discard(current_stack, 2 + n);
        assert(values(current_stack@) =~= s3);
        return false;
    }
    let sigs_end: usize = keys_from - 1;
    let sigs_from: usize = first_signature(current_stack, sigs_end);
    let signatures: Vec<Signature> = collect_signatures(current_stack, sigs_from, sigs_end);
    let ghost s4 = below(s3, signatures_on_top(s3) as int);
    proof {
        assert(s3 =~= s.subrange(0, sigs_end as int));
        let k = signatures_on_top(s3) as int;
        assert(top(s3, k) =~= s.subrange(sigs_from as int, sigs_end as int));
        assert(s4 =~= s.subrange(0, sigs_from as int));
    }
    if sigs_from < 1 {
        discard(current_stack, len - sigs_from);
        assert(values(current_stack@) =~= s4);
        return false;
    }
    let check_data: String = match &current_stack[sigs_from - 1] {
        StackEntry::Bytes(text) => text.clone(),
        _ => {
            discard(current_stack, len - (sigs_from - 1));
            assert(values(current_stack@) =~= below(s4, 1));
            return false;
        },
    };
    let enough: bool = match_on_multisig_to_pubkey(check_data, signatures, pub_keys, m);
    discard(current_stack, len - (sigs_from - 1));
    proof {
        assert(values(current_stack@) =~= s.subrange(0, sigs_from - 1));
        assert(below(s4, 1) =~= s.subrange(0, sigs_from - 1));
    }
    enough
}

/*---- PUSHES ----*/

/// Pushes `stack_entry`, whatever it is.
pub fn push_entry_to_stack(stack_entry: StackEntry, current_stack: &mut Vec<StackEntry>) -> (ok: bool)
    ensures
        ok,
        values(final(current_stack)@) == values(old(current_stack)@).push(stack_entry@),
{
    push(current_stack, stack_entry);
    true
}

/// Pushes a copy of `stack_entry`, whatever it is.
pub fn push_entry_to_stack_ref(
    stack_entry: &StackEntry,
    current_stack: &mut Vec<StackEntry>,
) -> (ok: bool)
    ensures
        ok,
        values(final(current_stack)@) == values(old(current_stack)@).push(stack_entry@),
{
    push(current_stack, stack_entry.clone());
    true
}

} // verus!
