//! The operations of the scripting language, one by one.

#![allow(unused_mut, unused_variables, unused_must_use)]

use txscript::constants::MAX_SCRIPT_ELEMENT_SIZE;
use txscript::script::interface_ops::{
    op_0notequal, op_1add, op_1sub, op_2div, op_2drop, op_2dup, op_2mul, op_2over, op_2rot,
    op_2swap, op_3dup, op_add, op_and, op_booland, op_boolor, op_cat, op_depth, op_div, op_drop,
    op_dup, op_equal, op_equalverify, op_fromaltstack, op_greaterthan, op_greaterthanorequal,
    op_ifdup, op_invert, op_left, op_lessthan, op_lessthanorequal, op_lshift, op_max, op_min,
    op_mod, op_mul, op_nip, op_not, op_numequal, op_numequalverify, op_numnotequal, op_or, op_over,
    op_pick, op_right, op_roll, op_rot, op_rshift, op_size, op_sub, op_substr, op_swap,
    op_toaltstack, op_tuck, op_within, op_xor,
};
use txscript::script::StackEntry;

/*---- STACK OPS ----*/

#[test]
/// Test OP_TOALTSTACK
fn test_toaltstack() {
    // op_toaltstack([1], []) -> [], [1]
    let mut current_stack: Vec<StackEntry> = vec![StackEntry::Num(1)];
    let mut current_alt_stack: Vec<StackEntry> = vec![];
    let mut v1: Vec<StackEntry> = vec![];
    let mut v2: Vec<StackEntry> = vec![StackEntry::Num(1)];
    op_toaltstack(&mut current_stack, &mut current_alt_stack);
    assert_eq!(current_stack, v1);
    assert_eq!(current_alt_stack, v2);
    // op_toaltstack([], []) -> fail
    let mut current_stack: Vec<StackEntry> = vec![];
    let mut current_alt_stack: Vec<StackEntry> = vec![];
    let b = op_toaltstack(&mut current_stack, &mut current_alt_stack);
    assert!(!b)
}

#[test]
/// Test OP_FROMALTSTACK
fn test_fromaltstack() {
    // op_fromaltstack([], [1]) -> [1], []
    let mut current_stack: Vec<StackEntry> = vec![];
    let mut current_alt_stack: Vec<StackEntry> = vec![StackEntry::Num(1)];
    let mut v1: Vec<StackEntry> = vec![StackEntry::Num(1)];
    let mut v2: Vec<StackEntry> = vec![];
    op_fromaltstack(&mut current_stack, &mut current_alt_stack);
    assert_eq!(current_stack, v1);
    assert_eq!(current_alt_stack, v2);
    // op_fromaltstack([], []) -> fail
    let mut current_stack: Vec<StackEntry> = vec![];
    let mut current_alt_stack: Vec<StackEntry> = vec![];
    let b = op_fromaltstack(&mut current_stack, &mut current_alt_stack);
    assert!(!b)
}

#[test]
/// Test OP_2DROP
fn test_2drop() {
    // op_2drop([1,2]) -> []
    let mut current_stack: Vec<StackEntry> = vec![];
    for i in 1..=2 {
        current_stack.push(StackEntry::Num(i));
    }
    let mut v: Vec<StackEntry> = vec![];
    op_2drop(&mut current_stack);
    assert_eq!(current_stack, v);
    // op_2drop([1]) -> fail
    let mut current_stack: Vec<StackEntry> = vec![StackEntry::Num(1)];
    let b = op_2drop(&mut current_stack);
    assert!(!b)
}

#[test]
/// Test OP_2DUP
fn test_2dup() {
    // op_2dup([1,2]) -> [1,2,1,2]
    let mut current_stack: Vec<StackEntry> = vec![];
    for i in 1..=2 {
        current_stack.push(StackEntry::Num(i));
    }
    let mut v: Vec<StackEntry> = vec![];
    for i in 1..=2 {
        v.push(StackEntry::Num(i));
    }
    for i in 1..=2 {
        v.push(StackEntry::Num(i));
    }
    op_2dup(&mut current_stack);
    assert_eq!(current_stack, v);
    // op_2dup([1]) -> fail
    let mut current_stack: Vec<StackEntry> = vec![StackEntry::Num(1)];
    let b = op_2dup(&mut current_stack);
    assert!(!b)
}

#[test]
/// Test OP_3DUP
fn test_3dup() {
    // op_3dup([1,2,3]) -> [1,2,3,1,2,3]
    let mut current_stack: Vec<StackEntry> = vec![];
    for i in 1..=3 {
        current_stack.push(StackEntry::Num(i));
    }
    let mut v: Vec<StackEntry> = vec![];
    for i in 1..=3 {
        v.push(StackEntry::Num(i));
    }
    for i in 1..=3 {
        v.push(StackEntry::Num(i));
    }
    op_3dup(&mut current_stack);
    assert_eq!(current_stack, v);
    // op_3dup([1,2]) -> fail
    let mut current_stack: Vec<StackEntry> = vec![];
    for i in 1..=2 {
        current_stack.push(StackEntry::Num(i));
    }
    let b = op_3dup(&mut current_stack);
    assert!(!b)
}

#[test]
/// Test OP_2OVER
fn test_2over() {
    // op_2over([1,2,3,4]) -> [1,2,3,4,1,2]
    let mut current_stack: Vec<StackEntry> = vec![];
    for i in 1..=4 {
        current_stack.push(StackEntry::Num(i));
    }
    let mut v: Vec<StackEntry> = vec![];
    for i in 1..=4 {
        v.push(StackEntry::Num(i));
    }
    for i in 1..=2 {
        v.push(StackEntry::Num(i));
    }
    op_2over(&mut current_stack);
    assert_eq!(current_stack, v);
    // op_2over([1,2,3]) -> fail
    let mut current_stack: Vec<StackEntry> = vec![];
    for i in 1..=3 {
        current_stack.push(StackEntry::Num(i));
    }
    let b = op_2over(&mut current_stack);
    assert!(!b)
}

#[test]
/// Test OP_2ROT
fn test_2rot() {
    // op_2rot([1,2,3,4,5,6]) -> [3,4,5,6,1,2]
    let mut current_stack: Vec<StackEntry> = vec![];
    for i in 1..=6 {
        current_stack.push(StackEntry::Num(i));
    }
    let mut v: Vec<StackEntry> = vec![];
    for i in 3..=6 {
        v.push(StackEntry::Num(i));
    }
    for i in 1..=2 {
        v.push(StackEntry::Num(i));
    }
    op_2rot(&mut current_stack);
    assert_eq!(current_stack, v);
    // op_2rot([1,2,3,4,5]) -> fail
    let mut current_stack: Vec<StackEntry> = vec![];
    for i in 1..=5 {
        current_stack.push(StackEntry::Num(i));
    }
    let b = op_2rot(&mut current_stack);
    assert!(!b)
}

#[test]
/// Test OP_2SWAP
fn test_2swap() {
    // op_2swap([1,2,3,4]) -> [3,4,1,2]
    let mut current_stack: Vec<StackEntry> = vec![];
    for i in 1..=4 {
        current_stack.push(StackEntry::Num(i));
    }
    let mut v: Vec<StackEntry> = vec![];
    for i in 3..=4 {
        v.push(StackEntry::Num(i));
    }
    for i in 1..=2 {
        v.push(StackEntry::Num(i));
    }
    op_2swap(&mut current_stack);
    assert_eq!(current_stack, v);
    // op_2swap([1,2,3]) -> fail
    let mut current_stack: Vec<StackEntry> = vec![];
    for i in 1..=3 {
        current_stack.push(StackEntry::Num(i));
    }
    let b = op_2swap(&mut current_stack);
    assert!(!b)
}

#[test]
/// Test OP_IFDUP
fn test_ifdup() {
    // op_ifdup([1]) -> [1,1]
    let mut current_stack: Vec<StackEntry> = vec![StackEntry::Num(1)];
    let mut v: Vec<StackEntry> = vec![];
    for i in 1..=2 {
        v.push(StackEntry::Num(1));
    }
    op_ifdup(&mut current_stack);
    assert_eq!(current_stack, v);
    // op_ifdup([0]) -> [0]
    let mut current_stack: Vec<StackEntry> = vec![StackEntry::Num(0)];
    let mut v: Vec<StackEntry> = vec![StackEntry::Num(0)];
    op_ifdup(&mut current_stack);
    assert_eq!(current_stack, v);
    // op_ifdup([]) -> fail
    let mut current_stack: Vec<StackEntry> = vec![];
    let b = op_ifdup(&mut current_stack);
    assert!(!b)
}

#[test]
/// Test OP_DEPTH
fn test_depth() {
    // op_depth([1,1,1,1]) -> [1,1,1,1,4]
    let mut current_stack: Vec<StackEntry> = vec![];
    for i in 1..=4 {
        current_stack.push(StackEntry::Num(1));
    }
    let mut v: Vec<StackEntry> = vec![];
    for i in 1..=4 {
        v.push(StackEntry::Num(1));
    }
    v.push(StackEntry::Num(4));
    op_depth(&mut current_stack);
    assert_eq!(current_stack, v);
    // op_depth([]) -> [0]
    let mut current_stack: Vec<StackEntry> = vec![];
    let mut v: Vec<StackEntry> = vec![StackEntry::Num(0)];
    op_depth(&mut current_stack);
    assert_eq!(current_stack, v)
}

#[test]
/// Test OP_DROP
fn test_drop() {
    // op_drop([1]) -> []
    let mut current_stack: Vec<StackEntry> = vec![StackEntry::Num(1)];
    let mut v: Vec<StackEntry> = vec![];
    op_drop(&mut current_stack);
    assert_eq!(current_stack, v);
    // op_drop([]) -> fail
    let mut current_stack: Vec<StackEntry> = vec![];
    let b = op_drop(&mut current_stack);
    assert!(!b)
}

#[test]
/// Test OP_DUP
fn test_dup() {
    // op_dup([1]) -> [1,1]
    let mut current_stack: Vec<StackEntry> = vec![StackEntry::Num(1)];
    let mut v: Vec<StackEntry> = vec![];
    for i in 1..=2 {
        v.push(StackEntry::Num(1));
    }
    op_dup(&mut current_stack);
    assert_eq!(current_stack, v);
    // op_dup([]) -> fail
    let mut current_stack: Vec<StackEntry> = vec![];
    let b = op_dup(&mut current_stack);
    assert!(!b)
}

#[test]
/// Test OP_NIP
fn test_nip() {
    // op_nip([1,2]) -> [2]
    let mut current_stack: Vec<StackEntry> = vec![];
    for i in 1..=2 {
        current_stack.push(StackEntry::Num(i));
    }
    let mut v: Vec<StackEntry> = vec![StackEntry::Num(2)];
    op_nip(&mut current_stack);
    assert_eq!(current_stack, v);
    // op_nip([1]) -> fail
    let mut current_stack: Vec<StackEntry> = vec![StackEntry::Num(1)];
    let b = op_nip(&mut current_stack);
    assert!(!b)
}

#[test]
/// Test OP_OVER
fn test_over() {
    // op_over([1,2]) -> [1,2,1]
    let mut current_stack: Vec<StackEntry> = vec![];
    for i in 1..=2 {
        current_stack.push(StackEntry::Num(i));
    }
    let mut v: Vec<StackEntry> = vec![];
    for i in 1..=2 {
        v.push(StackEntry::Num(i));
    }
    v.push(StackEntry::Num(1));
    op_over(&mut current_stack);
    assert_eq!(current_stack, v);
    // op_over([1]) -> fail
    let mut current_stack: Vec<StackEntry> = vec![StackEntry::Num(1)];
    let b = op_over(&mut current_stack);
    assert!(!b)
}

#[test]
/// Test OP_PICK
fn test_pick() {
    // op_pick([1,2,3,4,3]) -> [1,2,3,4,1]
    let mut current_stack: Vec<StackEntry> = vec![];
    for i in 1..=4 {
        current_stack.push(StackEntry::Num(i));
    }
    current_stack.push(StackEntry::Num(3));
    let mut v: Vec<StackEntry> = vec![];
    for i in 1..=4 {
        v.push(StackEntry::Num(i));
    }
    v.push(StackEntry::Num(1));
    op_pick(&mut current_stack);
    assert_eq!(current_stack, v);
    // op_pick([1,2,3,4,0]) -> [1,2,3,4,4]
    let mut current_stack: Vec<StackEntry> = vec![];
    for i in 1..=4 {
        current_stack.push(StackEntry::Num(i));
    }
    current_stack.push(StackEntry::Num(0));
    let mut v: Vec<StackEntry> = vec![];
    for i in 1..=4 {
        v.push(StackEntry::Num(i));
    }
    v.push(StackEntry::Num(4));
    op_pick(&mut current_stack);
    assert_eq!(current_stack, v);
    // op_pick([1]) -> fail
    let mut current_stack: Vec<StackEntry> = vec![StackEntry::Num(1)];
    let b = op_pick(&mut current_stack);
    assert!(!b);
    // op_pick([1,"hello"]) -> fail
    let mut current_stack: Vec<StackEntry> =
        vec![StackEntry::Num(1), StackEntry::Bytes("hello".to_string())];
    let b = op_pick(&mut current_stack);
    assert!(!b);
    // op_pick([1,1]) -> fail
    let mut current_stack: Vec<StackEntry> = vec![];
    for i in 1..=2 {
        current_stack.push(StackEntry::Num(i));
    }
    let b = op_pick(&mut current_stack);
    assert!(!b)
}

#[test]
/// Test OP_ROLL
fn test_roll() {
    // op_roll([1,2,3,4,3]) -> [2,3,4,1]
    let mut current_stack: Vec<StackEntry> = vec![];
    for i in 1..=4 {
        current_stack.push(StackEntry::Num(i));
    }
    current_stack.push(StackEntry::Num(3));
    let mut v: Vec<StackEntry> = vec![];
    for i in 2..=4 {
        v.push(StackEntry::Num(i));
    }
    v.push(StackEntry::Num(1));
    op_roll(&mut current_stack);
    assert_eq!(current_stack, v);
    // op_roll([1,2,3,4,0]) -> [1,2,3,4]
    let mut current_stack: Vec<StackEntry> = vec![];
    for i in 1..=4 {
        current_stack.push(StackEntry::Num(i));
    }
    current_stack.push(StackEntry::Num(0));
    let mut v: Vec<StackEntry> = vec![];
    for i in 1..=4 {
        v.push(StackEntry::Num(i));
    }
    op_roll(&mut current_stack);
    assert_eq!(current_stack, v);
    // op_roll([1]) -> fail
    let mut current_stack: Vec<StackEntry> = vec![StackEntry::Num(1)];
    let b = op_roll(&mut current_stack);
    assert!(!b);
    // op_roll([1,"hello"]) -> fail
    let mut current_stack: Vec<StackEntry> =
        vec![StackEntry::Num(1), StackEntry::Bytes("hello".to_string())];
    let b = op_roll(&mut current_stack);
    assert!(!b);
    // op_roll([1,1]) -> fail
    let mut current_stack: Vec<StackEntry> = vec![];
    for i in 1..=2 {
        current_stack.push(StackEntry::Num(i));
    }
    let b = op_roll(&mut current_stack);
    assert!(!b)
}

#[test]
/// Test OP_ROT
fn test_rot() {
    // op_rot([1,2,3]) -> [2,3,1]
    let mut current_stack: Vec<StackEntry> = vec![];
    for i in 1..=3 {
        current_stack.push(StackEntry::Num(i));
    }
    let mut v: Vec<StackEntry> = vec![];
    for i in 2..=3 {
        v.push(StackEntry::Num(i));
    }
    v.push(StackEntry::Num(1));
    op_rot(&mut current_stack);
    assert_eq!(current_stack, v);
    // op_rot([1,2]) -> fail
    let mut current_stack: Vec<StackEntry> = vec![];
    for i in 1..=2 {
        current_stack.push(StackEntry::Num(i));
    }
    let b = op_rot(&mut current_stack);
    assert!(!b)
}

#[test]
/// Test OP_SWAP
fn test_swap() {
    // op_swap([1,2]) -> [2,1]
    let mut current_stack: Vec<StackEntry> = vec![];
    for i in 1..=2 {
        current_stack.push(StackEntry::Num(i));
    }
    let mut v: Vec<StackEntry> = vec![StackEntry::Num(2), StackEntry::Num(1)];
    op_swap(&mut current_stack);
    assert_eq!(current_stack, v);
    // op_swap([1]) -> fail
    let mut current_stack: Vec<StackEntry> = vec![StackEntry::Num(1)];
    let b = op_swap(&mut current_stack);
    assert!(!b)
}

#[test]
/// Test OP_TUCK
fn test_tuck() {
    // op_tuck([1,2]) -> [2,1,2]
    let mut current_stack: Vec<StackEntry> = vec![];
    for i in 1..=2 {
        current_stack.push(StackEntry::Num(i));
    }
    let mut v: Vec<StackEntry> = vec![StackEntry::Num(2)];
    for i in 1..=2 {
        v.push(StackEntry::Num(i));
    }
    op_tuck(&mut current_stack);
    assert_eq!(current_stack, v);
    // op_tuck([1]) -> fail
    let mut current_stack: Vec<StackEntry> = vec![StackEntry::Num(1)];
    let b = op_tuck(&mut current_stack);
    assert!(!b)
}

/*---- SPLICE OPS ----*/

#[test]
/// Test OP_CAT
fn test_cat() {
    // op_cat(["hello","world"]) -> ["helloworld"]
    let mut current_stack: Vec<StackEntry> = vec![
        StackEntry::Bytes("hello".to_string()),
        StackEntry::Bytes("world".to_string()),
    ];
    let mut v: Vec<StackEntry> = vec![StackEntry::Bytes("helloworld".to_string())];
    op_cat(&mut current_stack);
    assert_eq!(current_stack, v);
    // op_cat(["hello",""]) -> ["hello"]
    let mut current_stack: Vec<StackEntry> = vec![
        StackEntry::Bytes("hello".to_string()),
        StackEntry::Bytes("".to_string()),
    ];
    let mut v: Vec<StackEntry> = vec![StackEntry::Bytes("hello".to_string())];
    op_cat(&mut current_stack);
    assert_eq!(current_stack, v);
    // op_cat(["a","a"*MAX_SCRIPT_ELEMENT_SIZE]) -> fail
    let mut current_stack: Vec<StackEntry> = vec![StackEntry::Bytes('a'.to_string())];
    let mut s = String::new();
    for i in 1..=MAX_SCRIPT_ELEMENT_SIZE {
        s.push('a');
    }
    current_stack.push(StackEntry::Bytes(s.to_string()));
    let b = op_cat(&mut current_stack);
    assert!(!b);
    // op_cat(["hello"]) -> fail
    let mut current_stack: Vec<StackEntry> = vec![StackEntry::Bytes("hello".to_string())];
    let b = op_cat(&mut current_stack);
    assert!(!b);
    // op_cat(["hello", 1]) -> fail
    let mut current_stack: Vec<StackEntry> =
        vec![StackEntry::Bytes("hello".to_string()), StackEntry::Num(1)];
    let b = op_cat(&mut current_stack);
    assert!(!b)
}

#[test]
/// Test OP_SUBSTR
fn test_substr() {
    // op_substr(["hello",1,2]) -> ["el"]
    let mut current_stack: Vec<StackEntry> = vec![StackEntry::Bytes("hello".to_string())];
    for i in 1..=2 {
        current_stack.push(StackEntry::Num(i));
    }
    let mut v: Vec<StackEntry> = vec![StackEntry::Bytes("el".to_string())];
    op_substr(&mut current_stack);
    assert_eq!(current_stack, v);
    // op_substr(["hello",0,0]) -> [""]
    let mut current_stack: Vec<StackEntry> = vec![StackEntry::Bytes("hello".to_string())];
    for i in 1..=2 {
        current_stack.push(StackEntry::Num(0));
    }
    let mut v: Vec<StackEntry> = vec![StackEntry::Bytes("".to_string())];
    op_substr(&mut current_stack);
    assert_eq!(current_stack, v);
    // op_substr(["hello",0,5]) -> ["hello"]
    let mut current_stack: Vec<StackEntry> = vec![StackEntry::Bytes("hello".to_string())];
    current_stack.push(StackEntry::Num(0));
    current_stack.push(StackEntry::Num(5));
    let mut v: Vec<StackEntry> = vec![StackEntry::Bytes("hello".to_string())];
    op_substr(&mut current_stack);
    assert_eq!(current_stack, v);
    // op_substr(["hello",5,0]) -> fail
    let mut current_stack: Vec<StackEntry> = vec![StackEntry::Bytes("hello".to_string())];
    current_stack.push(StackEntry::Num(5));
    current_stack.push(StackEntry::Num(0));
    let b = op_substr(&mut current_stack);
    assert!(!b);
    // op_substr(["hello",1,5]) -> fail
    let mut current_stack: Vec<StackEntry> = vec![StackEntry::Bytes("hello".to_string())];
    current_stack.push(StackEntry::Num(1));
    current_stack.push(StackEntry::Num(5));
    let b = op_substr(&mut current_stack);
    assert!(!b);
    // op_substr(["hello",1]) -> fail
    let mut current_stack: Vec<StackEntry> = vec![StackEntry::Bytes("hello".to_string())];
    current_stack.push(StackEntry::Num(1));
    let b = op_substr(&mut current_stack);
    assert!(!b);
    // op_substr(["hello",1,usize::MAX]) -> fail
    let mut current_stack: Vec<StackEntry> = vec![StackEntry::Bytes("hello".to_string())];
    current_stack.push(StackEntry::Num(1));
    current_stack.push(StackEntry::Num(usize::MAX));
    let b = op_substr(&mut current_stack);
    assert!(!b);
    // op_substr(["hello",1,""]) -> fail
    let mut current_stack: Vec<StackEntry> = vec![StackEntry::Bytes("hello".to_string())];
    current_stack.push(StackEntry::Num(1));
    current_stack.push(StackEntry::Bytes("".to_string()));
    let b = op_substr(&mut current_stack);
    assert!(!b)
}

#[test]
/// Test OP_LEFT
fn test_left() {
    // op_left(["hello",2]) -> ["he"]
    let mut current_stack: Vec<StackEntry> =
        vec![StackEntry::Bytes("hello".to_string()), StackEntry::Num(2)];
    let mut v: Vec<StackEntry> = vec![StackEntry::Bytes("he".to_string())];
    op_left(&mut current_stack);
    assert_eq!(current_stack, v);
    // op_left(["hello",0]) -> [""]
    let mut current_stack: Vec<StackEntry> =
        vec![StackEntry::Bytes("hello".to_string()), StackEntry::Num(0)];
    let mut v: Vec<StackEntry> = vec![StackEntry::Bytes("".to_string())];
    op_left(&mut current_stack);
    assert_eq!(current_stack, v);
    // op_left(["hello",5]) -> ["hello"]
    let mut current_stack: Vec<StackEntry> =
        vec![StackEntry::Bytes("hello".to_string()), StackEntry::Num(5)];
    let mut v: Vec<StackEntry> = vec![StackEntry::Bytes("hello".to_string())];
    op_left(&mut current_stack);
    assert_eq!(current_stack, v);
    // op_left(["hello",""]) -> fail
    let mut current_stack: Vec<StackEntry> = vec![
        StackEntry::Bytes("hello".to_string()),
        StackEntry::Bytes("".to_string()),
    ];
    let b = op_left(&mut current_stack);
    assert!(!b);
    // op_left(["hello"]) -> fail
    let mut current_stack: Vec<StackEntry> = vec![StackEntry::Bytes("hello".to_string())];
    let b = op_left(&mut current_stack);
    assert!(!b)
}

#[test]
/// Test OP_RIGHT
fn test_right() {
    // op_right(["hello",0]) -> ["hello"]
    let mut current_stack: Vec<StackEntry> =
        vec![StackEntry::Bytes("hello".to_string()), StackEntry::Num(0)];
    let mut v: Vec<StackEntry> = vec![StackEntry::Bytes("hello".to_string())];
    op_right(&mut current_stack);
    assert_eq!(current_stack, v);
    // op_right(["hello",2]) -> ["llo"]
    let mut current_stack: Vec<StackEntry> =
        vec![StackEntry::Bytes("hello".to_string()), StackEntry::Num(2)];
    let mut v: Vec<StackEntry> = vec![StackEntry::Bytes("llo".to_string())];
    op_right(&mut current_stack);
    assert_eq!(current_stack, v);
    // op_right(["hello",5]) -> [""]
    let mut current_stack: Vec<StackEntry> =
        vec![StackEntry::Bytes("hello".to_string()), StackEntry::Num(5)];
    let mut v: Vec<StackEntry> = vec![StackEntry::Bytes("".to_string())];
    op_right(&mut current_stack);
    assert_eq!(current_stack, v);
    // op_right(["hello",""]) -> fail
    let mut current_stack: Vec<StackEntry> = vec![
        StackEntry::Bytes("hello".to_string()),
        StackEntry::Bytes("".to_string()),
    ];
    let b = op_right(&mut current_stack);
    assert!(!b);
    // op_right(["hello"]) -> fail
    let mut current_stack: Vec<StackEntry> = vec![StackEntry::Bytes("hello".to_string())];
    let b = op_right(&mut current_stack);
    assert!(!b)
}

#[test]
/// Test OP_SIZE
fn test_size() {
    // op_size(["hello"]) -> ["hello",5]
    let mut current_stack: Vec<StackEntry> = vec![StackEntry::Bytes("hello".to_string())];
    let mut v: Vec<StackEntry> =
        vec![StackEntry::Bytes("hello".to_string()), StackEntry::Num(5)];
    op_size(&mut current_stack);
    assert_eq!(current_stack, v);
    // op_size([""]) -> ["",0]
    let mut current_stack: Vec<StackEntry> = vec![StackEntry::Bytes("".to_string())];
    let mut v: Vec<StackEntry> = vec![StackEntry::Bytes("".to_string()), StackEntry::Num(0)];
    op_size(&mut current_stack);
    assert_eq!(current_stack, v);
    // op_size([1]) -> fail
    let mut current_stack: Vec<StackEntry> = vec![StackEntry::Num(1)];
    let b = op_size(&mut current_stack);
    assert!(!b);
    // op_size([]) -> fail
    let mut current_stack: Vec<StackEntry> = vec![];
    let b = op_size(&mut current_stack);
    assert!(!b)
}

/*---- BITWISE LOGIC OPS ----*/

#[test]
/// Test OP_INVERT
fn test_invert() {
    // op_invert([0]) -> [usize::MAX]
    let mut current_stack: Vec<StackEntry> = vec![StackEntry::Num(0)];
    let mut v: Vec<StackEntry> = vec![StackEntry::Num(usize::MAX)];
    op_invert(&mut current_stack);
    assert_eq!(current_stack, v);
    // op_invert([]) -> fail
    let mut current_stack: Vec<StackEntry> = vec![];
    let b = op_invert(&mut current_stack);
    assert!(!b)
}

#[test]
/// Test OP_AND
fn test_and() {
    // op_and([1,2]) -> [0]
    let mut current_stack: Vec<StackEntry> = vec![];
    for i in 1..=2 {
        current_stack.push(StackEntry::Num(i));
    }
    let mut v: Vec<StackEntry> = vec![StackEntry::Num(0)];
    op_and(&mut current_stack);
    assert_eq!(current_stack, v);
    // op_and([1]) -> fail
    let mut current_stack: Vec<StackEntry> = vec![StackEntry::Num(1)];
    let b = op_and(&mut current_stack);
    assert!(!b)
}

#[test]
/// Test OP_OR
fn test_or() {
    // op_or([1,2]) -> [3]
    let mut current_stack: Vec<StackEntry> = vec![];
    for i in 1..=2 {
        current_stack.push(StackEntry::Num(i));
    }
    let mut v: Vec<StackEntry> = vec![StackEntry::Num(3)];
    op_or(&mut current_stack);
    assert_eq!(current_stack, v);
    // op_or([1]) -> fail
    let mut current_stack: Vec<StackEntry> = vec![StackEntry::Num(1)];
    let b = op_or(&mut current_stack);
    assert!(!b)
}

#[test]
/// Test OP_XOR
fn test_xor() {
    // op_xor([1,2]) -> [3]
    let mut current_stack: Vec<StackEntry> = vec![];
    for i in 1..=2 {
        current_stack.push(StackEntry::Num(i));
    }
    let mut v: Vec<StackEntry> = vec![StackEntry::Num(3)];
    op_xor(&mut current_stack);
    assert_eq!(current_stack, v);
    // op_xor([1]) -> fail
    let mut current_stack: Vec<StackEntry> = vec![StackEntry::Num(1)];
    let b = op_xor(&mut current_stack);
    assert!(!b)
}

#[test]
/// Test OP_EQUAL
fn test_equal() {
    // op_equal(["hello","hello"]) -> [1]
    let mut current_stack: Vec<StackEntry> = vec![];
    for i in 1..=2 {
        current_stack.push(StackEntry::Bytes("hello".to_string()));
    }
    let mut v: Vec<StackEntry> = vec![StackEntry::Num(1)];
    op_equal(&mut current_stack);
    assert_eq!(current_stack, v);
    // op_equal([1,2]) -> [0]
    let mut current_stack: Vec<StackEntry> = vec![];
    for i in 1..=2 {
        current_stack.push(StackEntry::Num(i));
    }
    let mut v: Vec<StackEntry> = vec![StackEntry::Num(0)];
    op_equal(&mut current_stack);
    assert_eq!(current_stack, v);
    // op_equal([1]) -> fail
    let mut current_stack: Vec<StackEntry> = vec![StackEntry::Num(1)];
    let b = op_equal(&mut current_stack);
    assert!(!b)
}

#[test]
/// Test OP_EQUALVERIFY
fn test_equalverify() {
    // op_equalverify(["hello","hello"]) -> []
    let mut current_stack: Vec<StackEntry> = vec![];
    for i in 1..=2 {
        current_stack.push(StackEntry::Bytes("hello".to_string()));
    }
    let mut v: Vec<StackEntry> = vec![];
    op_equalverify(&mut current_stack);
    assert_eq!(current_stack, v);
    // op_equalverify([1,2]) -> fail
    let mut current_stack: Vec<StackEntry> = vec![];
    for i in 1..=2 {
        current_stack.push(StackEntry::Num(i));
    }
    let b = op_equalverify(&mut current_stack);
    assert!(!b);
    // op_equalverify([1]) -> fail
    let mut current_stack: Vec<StackEntry> = vec![StackEntry::Num(1)];
    let b = op_equalverify(&mut current_stack);
    assert!(!b)
}

/*---- ARITHMETIC OPS ----*/

#[test]
/// Test OP_1ADD
fn test_1add() {
    // op_1add([1]) -> [2]
    let mut current_stack: Vec<StackEntry> = vec![StackEntry::Num(1)];
    let mut v: Vec<StackEntry> = vec![StackEntry::Num(2)];
    op_1add(&mut current_stack);
    assert_eq!(current_stack, v);
    // op_1add([usize::MAX]) -> fail
    let mut current_stack: Vec<StackEntry> = vec![StackEntry::Num(usize::MAX)];
    let b = op_1add(&mut current_stack);
    assert!(!b);
    // op_1add([]) -> fail
    let mut current_stack: Vec<StackEntry> = vec![];
    let b = op_1add(&mut current_stack);
    assert!(!b)
}

#[test]
/// Test OP_1SUB
fn test_1sub() {
    // op_1sub([1]) -> [0]
    let mut current_stack: Vec<StackEntry> = vec![StackEntry::Num(1)];
    let mut v: Vec<StackEntry> = vec![StackEntry::Num(0)];
    op_1sub(&mut current_stack);
    assert_eq!(current_stack, v);
    // op_1sub([0]) -> fail
    let mut current_stack: Vec<StackEntry> = vec![StackEntry::Num(0)];
    let b = op_1sub(&mut current_stack);
    assert!(!b);
    // op_1sub([]) -> fail
    let mut current_stack: Vec<StackEntry> = vec![];
    let b = op_1sub(&mut current_stack);
    assert!(!b)
}

#[test]
/// Test OP_2MUL
fn test_2mul() {
    // op_2mul([1]) -> [2]
    let mut current_stack: Vec<StackEntry> = vec![StackEntry::Num(1)];
    let mut v: Vec<StackEntry> = vec![StackEntry::Num(2)];
    op_2mul(&mut current_stack);
    assert_eq!(current_stack, v);
    // op_2mul([usize::MAX]) -> fail
    let mut current_stack: Vec<StackEntry> = vec![StackEntry::Num(usize::MAX)];
    let b = op_2mul(&mut current_stack);
    assert!(!b);
    // op_2mul([]) -> fail
    let mut current_stack: Vec<StackEntry> = vec![];
    let b = op_2mul(&mut current_stack);
    assert!(!b)
}

#[test]
/// Test OP_2DIV
fn test_2div() {
    // op_2div([1]) -> [0]
    let mut current_stack: Vec<StackEntry> = vec![StackEntry::Num(1)];
    let mut v: Vec<StackEntry> = vec![StackEntry::Num(0)];
    op_2div(&mut current_stack);
    assert_eq!(current_stack, v);
    // op_2div([]) -> fail
    let mut current_stack: Vec<StackEntry> = vec![];
    let b = op_2div(&mut current_stack);
    assert!(!b)
}

#[test]
/// Test OP_NOT
fn test_not() {
    // op_not([0]) -> [1]
    let mut current_stack: Vec<StackEntry> = vec![StackEntry::Num(0)];
    let mut v: Vec<StackEntry> = vec![StackEntry::Num(1)];
    op_not(&mut current_stack);
    assert_eq!(current_stack, v);
    // op_not([1]) -> [0]
    let mut current_stack: Vec<StackEntry> = vec![StackEntry::Num(1)];
    let mut v: Vec<StackEntry> = vec![StackEntry::Num(0)];
    op_not(&mut current_stack);
    assert_eq!(current_stack, v);
    // op_not([]) -> fail
    let mut current_stack: Vec<StackEntry> = vec![];
    let b = op_not(&mut current_stack);
    assert!(!b)
}

#[test]
/// Test OP_0NOTEQUAL
fn test_0notequal() {
    // op_0notequal([1]) -> [1]
    let mut current_stack: Vec<StackEntry> = vec![StackEntry::Num(1)];
    let mut v: Vec<StackEntry> = vec![StackEntry::Num(1)];
    op_0notequal(&mut current_stack);
    assert_eq!(current_stack, v);
    // op_0notequal([0]) -> [0]
    let mut current_stack: Vec<StackEntry> = vec![StackEntry::Num(0)];
    let mut v: Vec<StackEntry> = vec![StackEntry::Num(0)];
    op_0notequal(&mut current_stack);
    assert_eq!(current_stack, v);
    // op_0notequal([]) -> fail
    let mut current_stack: Vec<StackEntry> = vec![];
    let b = op_0notequal(&mut current_stack);
    assert!(!b)
}

#[test]
/// Test OP_ADD
fn test_add() {
    // op_add([1,2]) -> [3]
    let mut current_stack: Vec<StackEntry> = vec![];
    for i in 1..=2 {
        current_stack.push(StackEntry::Num(i));
    }
    let mut v: Vec<StackEntry> = vec![StackEntry::Num(3)];
    op_add(&mut current_stack);
    assert_eq!(current_stack, v);
    // op_add([1,usize::MAX]) -> fail
    let mut current_stack: Vec<StackEntry> =
        vec![StackEntry::Num(1), StackEntry::Num(usize::MAX)];
    let b = op_add(&mut current_stack);
    assert!(!b);
    // op_add([1]) -> fail
    let mut current_stack: Vec<StackEntry> = vec![StackEntry::Num(1)];
    let b = op_add(&mut current_stack);
    assert!(!b)
}

#[test]
/// Test OP_SUB
fn test_sub() {
    // op_sub([1,0]) -> [1]
    let mut current_stack: Vec<StackEntry> = vec![StackEntry::Num(1), StackEntry::Num(0)];
    let mut v: Vec<StackEntry> = vec![StackEntry::Num(1)];
    op_sub(&mut current_stack);
    assert_eq!(current_stack, v);
    // op_sub([0,1]) -> fail
    let mut current_stack: Vec<StackEntry> = vec![StackEntry::Num(0), StackEntry::Num(1)];
    let b = op_sub(&mut current_stack);
    assert!(!b);
    // op_sub([1]) -> fail
    let mut current_stack: Vec<StackEntry> = vec![StackEntry::Num(1)];
    let b = op_sub(&mut current_stack);
    assert!(!b)
}

#[test]
/// Test OP_MUL
fn test_mul() {
    // op_mul([1,2]) -> [2]
    let mut current_stack: Vec<StackEntry> = vec![];
    for i in 1..=2 {
        current_stack.push(StackEntry::Num(i));
    }
    let mut v: Vec<StackEntry> = vec![StackEntry::Num(2)];
    op_mul(&mut current_stack);
    assert_eq!(current_stack, v);
    // op_mul([2,usize::MAX]) -> fail
    let mut current_stack: Vec<StackEntry> =
        vec![StackEntry::Num(2), StackEntry::Num(usize::MAX)];
    let b = op_mul(&mut current_stack);
    assert!(!b);
    // op_mul([1]) -> fail
    let mut current_stack: Vec<StackEntry> = vec![StackEntry::Num(1)];
    let b = op_mul(&mut current_stack);
    assert!(!b)
}

#[test]
/// Test OP_DIV
fn test_div() {
    // op_div([1,2]) -> [0]
    let mut current_stack: Vec<StackEntry> = vec![];
    for i in 1..=2 {
        current_stack.push(StackEntry::Num(i));
    }
    let mut v: Vec<StackEntry> = vec![StackEntry::Num(0)];
    op_div(&mut current_stack);
    assert_eq!(current_stack, v);
    // op_div([1,0]) -> fail
    let mut current_stack: Vec<StackEntry> = vec![StackEntry::Num(1), StackEntry::Num(0)];
    let b = op_div(&mut current_stack);
    assert!(!b);
    // op_div([1]) -> fail
    let mut current_stack: Vec<StackEntry> = vec![StackEntry::Num(1)];
    let b = op_div(&mut current_stack);
    assert!(!b)
}

#[test]
/// Test OP_MOD
fn test_mod() {
    // op_mod([1,2]) -> [1]
    let mut current_stack: Vec<StackEntry> = vec![];
    for i in 1..=2 {
        current_stack.push(StackEntry::Num(i));
    }
    let mut v: Vec<StackEntry> = vec![StackEntry::Num(1)];
    op_mod(&mut current_stack);
    assert_eq!(current_stack, v);
    // op_mod([1,0]) -> fail
    let mut current_stack: Vec<StackEntry> = vec![StackEntry::Num(1), StackEntry::Num(0)];
    let b = op_mod(&mut current_stack);
    assert!(!b);
    // op_mod([1]) -> fail
    let mut current_stack: Vec<StackEntry> = vec![StackEntry::Num(1)];
    let b = op_mod(&mut current_stack);
    assert!(!b)
}

#[test]
/// Test OP_LSHIFT
fn test_lshift() {
    // op_lshift([1,2]) -> [4]
    let mut current_stack: Vec<StackEntry> = vec![];
    for i in 1..=2 {
        current_stack.push(StackEntry::Num(i));
    }
    let mut v: Vec<StackEntry> = vec![StackEntry::Num(4)];
    op_lshift(&mut current_stack);
    assert_eq!(current_stack, v);
    // op_lshift([1,64]) -> fail
    let mut current_stack: Vec<StackEntry> = vec![StackEntry::Num(1), StackEntry::Num(64)];
    let b = op_lshift(&mut current_stack);
    assert!(!b);
    // op_lshift([1]) -> fail
    let mut current_stack: Vec<StackEntry> = vec![StackEntry::Num(1)];
    let b = op_lshift(&mut current_stack);
    assert!(!b)
}

#[test]
/// Test OP_RSHIFT
fn test_rshift() {
    // op_rshift([1,2]) -> [0]
    let mut current_stack: Vec<StackEntry> = vec![];
    for i in 1..=2 {
        current_stack.push(StackEntry::Num(i));
    }
    let mut v: Vec<StackEntry> = vec![StackEntry::Num(0)];
    op_rshift(&mut current_stack);
    assert_eq!(current_stack, v);
    // op_rshift([1,64]) -> fail
    let mut current_stack: Vec<StackEntry> = vec![StackEntry::Num(1), StackEntry::Num(64)];
    let b = op_rshift(&mut current_stack);
    assert!(!b);
    // op_rshift([1]) -> fail
    let mut current_stack: Vec<StackEntry> = vec![StackEntry::Num(1)];
    let b = op_rshift(&mut current_stack);
    assert!(!b)
}

#[test]
/// Test OP_BOOLAND
fn test_booland() {
    // op_booland([1,2]) -> [1]
    let mut current_stack: Vec<StackEntry> = vec![];
    for i in 1..=2 {
        current_stack.push(StackEntry::Num(i));
    }
    let mut v: Vec<StackEntry> = vec![StackEntry::Num(1)];
    op_booland(&mut current_stack);
    assert_eq!(current_stack, v);
    // op_booland([0,1]) -> [0]
    let mut current_stack: Vec<StackEntry> = vec![];
    for i in 0..=1 {
        current_stack.push(StackEntry::Num(i));
    }
    let mut v: Vec<StackEntry> = vec![StackEntry::Num(0)];
    op_booland(&mut current_stack);
    assert_eq!(current_stack, v);
    // op_booland([1]) -> fail
    let mut current_stack: Vec<StackEntry> = vec![StackEntry::Num(1)];
    let b = op_booland(&mut current_stack);
    assert!(!b)
}

#[test]
/// Test OP_BOOLOR
fn test_boolor() {
    // op_boolor([0,1]) -> [1]
    let mut current_stack: Vec<StackEntry> = vec![];
    for i in 0..=1 {
        current_stack.push(StackEntry::Num(i));
    }
    let mut v: Vec<StackEntry> = vec![StackEntry::Num(1)];
    op_boolor(&mut current_stack);
    assert_eq!(current_stack, v);
    // op_boolor([0,0]) -> [0]
    let mut current_stack: Vec<StackEntry> = vec![];
    for i in 1..=2 {
        current_stack.push(StackEntry::Num(0));
    }
    let mut v: Vec<StackEntry> = vec![StackEntry::Num(0)];
    op_boolor(&mut current_stack);
    assert_eq!(current_stack, v);
    // op_boolor([1]) -> fail
    let mut current_stack: Vec<StackEntry> = vec![StackEntry::Num(1)];
    let b = op_boolor(&mut current_stack);
    assert!(!b)
}

#[test]
/// Test OP_NUMEQUAL
fn test_numequal() {
    // op_numequal([1,1]) -> [1]
    let mut current_stack: Vec<StackEntry> = vec![];
    for i in 1..=2 {
        current_stack.push(StackEntry::Num(1));
    }
    let mut v: Vec<StackEntry> = vec![StackEntry::Num(1)];
    op_numequal(&mut current_stack);
    assert_eq!(current_stack, v);
    // op_numequal([1,2]) -> [0]
    let mut current_stack: Vec<StackEntry> = vec![];
    for i in 1..=2 {
        current_stack.push(StackEntry::Num(i));
    }
    let mut v: Vec<StackEntry> = vec![StackEntry::Num(0)];
    op_numequal(&mut current_stack);
    assert_eq!(current_stack, v);
    // op_numequal([1]) -> fail
    let mut current_stack: Vec<StackEntry> = vec![StackEntry::Num(1)];
    let b = op_numequal(&mut current_stack);
    assert!(!b)
}

#[test]
/// Test OP_NUMEQUALVERIFY
fn test_numequalverify() {
    // op_numequalverify([1,1]) -> []
    let mut current_stack: Vec<StackEntry> = vec![];
    for i in 1..=1 {
        current_stack.push(StackEntry::Num(i));
    }
    let mut v: Vec<StackEntry> = vec![StackEntry::Num(1)];
    op_numequalverify(&mut current_stack);
    assert_eq!(current_stack, v);
    // op_numequalverify([1,2]) -> fail
    let mut current_stack: Vec<StackEntry> = vec![];
    for i in 1..=2 {
        current_stack.push(StackEntry::Num(i));
    }
    let b = op_numequalverify(&mut current_stack);
    assert!(!b);
    // op_numequalverify([1]) -> fail
    let mut current_stack: Vec<StackEntry> = vec![StackEntry::Num(1)];
    let b = op_numequalverify(&mut current_stack);
    assert!(!b)
}

#[test]
/// Test OP_NUMNOTEQUAL
fn test_numnotequal() {
    // op_numnotequal([1,2]) -> [1]
    let mut current_stack: Vec<StackEntry> = vec![];
    for i in 1..=2 {
        current_stack.push(StackEntry::Num(i));
    }
    let mut v: Vec<StackEntry> = vec![StackEntry::Num(1)];
    op_numnotequal(&mut current_stack);
    assert_eq!(current_stack, v);
    // op_numnotequal([1,1]) -> [0]
    let mut current_stack: Vec<StackEntry> = vec![];
    for i in 1..=2 {
        current_stack.push(StackEntry::Num(1));
    }
    let mut v: Vec<StackEntry> = vec![StackEntry::Num(0)];
    op_numnotequal(&mut current_stack);
    assert_eq!(current_stack, v);
    // op_numnotequal([1]) -> fail
    let mut current_stack: Vec<StackEntry> = vec![StackEntry::Num(1)];
    let b = op_numnotequal(&mut current_stack);
    assert!(!b)
}

#[test]
/// Test OP_LESSTHAN
fn test_lessthan() {
    // op_lessthan([1,2]) -> [1]
    let mut current_stack: Vec<StackEntry> = vec![];
    for i in 1..=2 {
        current_stack.push(StackEntry::Num(i));
    }
    let mut v: Vec<StackEntry> = vec![StackEntry::Num(1)];
    op_lessthan(&mut current_stack);
    assert_eq!(current_stack, v);
    // op_lessthan([1,1]) -> [0]
    let mut current_stack: Vec<StackEntry> = vec![];
    for i in 1..=2 {
        current_stack.push(StackEntry::Num(1));
    }
    let mut v: Vec<StackEntry> = vec![StackEntry::Num(0)];
    op_lessthan(&mut current_stack);
    assert_eq!(current_stack, v);
    // op_lessthan([1]) -> fail
    let mut current_stack: Vec<StackEntry> = vec![StackEntry::Num(1)];
    let b = op_lessthan(&mut current_stack);
    assert!(!b)
}

#[test]
/// Test OP_GREATERTHAN
fn test_greaterthan() {
    // op_greaterthan([2,1]) -> [1]
    let mut current_stack: Vec<StackEntry> = vec![StackEntry::Num(2), StackEntry::Num(1)];
    let mut v: Vec<StackEntry> = vec![StackEntry::Num(1)];
    op_greaterthan(&mut current_stack);
    assert_eq!(current_stack, v);
    // op_greaterthan([1,1]) -> [0]
    let mut current_stack: Vec<StackEntry> = vec![];
    for i in 1..=2 {
        current_stack.push(StackEntry::Num(1));
    }
    let mut v: Vec<StackEntry> = vec![StackEntry::Num(0)];
    op_greaterthan(&mut current_stack);
    assert_eq!(current_stack, v);
    // op_greaterthan([1]) -> fail
    let mut current_stack: Vec<StackEntry> = vec![StackEntry::Num(1)];
    let b = op_greaterthan(&mut current_stack);
    assert!(!b)
}

#[test]
/// Test OP_LESSTHANOREQUAL
fn test_lessthanorequal() {
    // test_lessthanorequal([1,1]) -> [1]
    let mut current_stack: Vec<StackEntry> = vec![];
    for i in 1..=2 {
        current_stack.push(StackEntry::Num(1));
    }
    let mut v: Vec<StackEntry> = vec![StackEntry::Num(1)];
    op_lessthanorequal(&mut current_stack);
    assert_eq!(current_stack, v);
    // op_lessthanorequal([2,1]) -> [0]
    let mut current_stack: Vec<StackEntry> = vec![StackEntry::Num(2), StackEntry::Num(1)];
    let mut v: Vec<StackEntry> = vec![StackEntry::Num(0)];
    op_lessthanorequal(&mut current_stack);
    assert_eq!(current_stack, v);
    // op_lessthanorequal([1]) -> fail
    let mut current_stack: Vec<StackEntry> = vec![StackEntry::Num(1)];
    let b = op_lessthanorequal(&mut current_stack);
    assert!(!b)
}

#[test]
/// Test OP_GREATERTHANOREQUAL
fn test_greaterthanorequal() {
    // op_greaterthanorequal([1,1]) -> [1]
    let mut current_stack: Vec<StackEntry> = vec![];
    for i in 1..=2 {
        current_stack.push(StackEntry::Num(1));
    }
    let mut v: Vec<StackEntry> = vec![StackEntry::Num(1)];
    op_greaterthanorequal(&mut current_stack);
    assert_eq!(current_stack, v);
    // op_greaterthanorequal([1,2]) -> [0]
    let mut current_stack: Vec<StackEntry> = vec![];
    for i in 1..=2 {
        current_stack.push(StackEntry::Num(i));
    }
    let mut v: Vec<StackEntry> = vec![StackEntry::Num(0)];
    op_greaterthanorequal(&mut current_stack);
    assert_eq!(current_stack, v);
    // op_greaterthanorequal([1]) -> fail
    let mut current_stack: Vec<StackEntry> = vec![StackEntry::Num(1)];
    let b = op_greaterthanorequal(&mut current_stack);
    assert!(!b)
}

#[test]
/// Test OP_MIN
fn test_min() {
    // op_min([1,2]) -> [1]
    let mut current_stack: Vec<StackEntry> = vec![];
    for i in 1..=2 {
        current_stack.push(StackEntry::Num(i));
    }
    let mut v: Vec<StackEntry> = vec![StackEntry::Num(1)];
    op_min(&mut current_stack);
    assert_eq!(current_stack, v);
    // op_min([1]) -> fail
    let mut current_stack: Vec<StackEntry> = vec![StackEntry::Num(1)];
    let b = op_min(&mut current_stack);
    assert!(!b)
}

#[test]
/// Test OP_MAX
fn test_max() {
    // op_max([1,2]) -> [2]
    let mut current_stack: Vec<StackEntry> = vec![];
    for i in 1..=2 {
        current_stack.push(StackEntry::Num(i));
    }
    let mut v: Vec<StackEntry> = vec![StackEntry::Num(2)];
    op_max(&mut current_stack);
    assert_eq!(current_stack, v);
    // op_max([1]) -> fail
    let mut current_stack: Vec<StackEntry> = vec![StackEntry::Num(1)];
    let b = op_max(&mut current_stack);
    assert!(!b)
}

#[test]
/// Test OP_WITHIN
fn test_within() {
    // op_within([2,1,3]) -> [1]
    let mut current_stack: Vec<StackEntry> =
        vec![StackEntry::Num(2), StackEntry::Num(1), StackEntry::Num(3)];
    let mut v: Vec<StackEntry> = vec![StackEntry::Num(1)];
    op_within(&mut current_stack);
    assert_eq!(current_stack, v);
    // op_within([1,2,3]) -> [0]
    let mut current_stack: Vec<StackEntry> = vec![];
    for i in 1..=3 {
        current_stack.push(StackEntry::Num(i));
    }
    let mut v: Vec<StackEntry> = vec![StackEntry::Num(0)];
    op_within(&mut current_stack);
    assert_eq!(current_stack, v);
    // op_within([1,2]) -> fail
    let mut current_stack: Vec<StackEntry> = vec![];
    for i in 1..=2 {
        current_stack.push(StackEntry::Num(i));
    }
    let b = op_within(&mut current_stack);
    assert!(!b)
}
