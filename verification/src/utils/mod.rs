//! Helpers that the rest of the library shares.

use crate::primitives::asset::TokenAmount;
use vstd::prelude::*;

pub use crate::utils::maps::add_btreemap;

pub mod hash;
pub mod hex_codec;
pub mod maps;
pub mod script_utils;
pub mod text;
pub mod transaction_utils;

verus! {

/// Whether `_value` is an amount of tokens that the supply allows. There is
/// no limit yet: every amount is accepted.
pub fn is_valid_amount(_value: &TokenAmount) -> (valid: bool)
    ensures
        valid,
{
    true
}

/// A type whose values have a number each.
pub trait ToOrdinal {
    /// The number of the value.
    spec fn ordinal(&self) -> u32;

    /// Gives the number of the value.
    fn to_ordinal(&self) -> (ordinal: u32)
        ensures
            ordinal == self.ordinal(),
    ;
}

/// Whether `ordinal` is the number of a value of `T`.
pub open spec fn is_ordinal<T: ToOrdinal>(ordinal: u32) -> bool {
    exists|v: T| #[trigger] v.ordinal() == ordinal
}

/// A type whose values can be had from their numbers.
pub trait FromOrdinal: Sized + ToOrdinal {
    /// Every number that belongs to a value, and no other.
    fn all_ordinals() -> (all: Vec<u32>)
        ensures
            forall|i: int| 0 <= i < all@.len() ==> is_ordinal::<Self>(#[trigger] all@[i]),
            forall|v: Self| all@.contains(#[trigger] v.ordinal()),
    ;

    /// The value with the number `ordinal`; where there is none, the number
    /// comes back.
    fn from_ordinal(ordinal: u32) -> (value: Result<Self, u32>)
        ensures
            match value {
                Ok(v) => v.ordinal() == ordinal,
                Err(n) => n == ordinal && !is_ordinal::<Self>(ordinal),
            },
    ;
}

/// A type whose values have a name each.
pub trait ToName {
    /// The name of the value.
    spec fn name(&self) -> Seq<char>;

    /// Gives the name of the value.
    fn to_name(&self) -> (name: &'static str)
        ensures
            name@ == self.name(),
    ;
}

/// Whether `name` is among `names`.
pub open spec fn is_listed(names: Seq<&'static str>, name: Seq<char>) -> bool {
    exists|j: int| 0 <= j < names.len() && (#[trigger] names[j])@ == name
}

/// A type whose values can be had from their names.
pub trait FromName: Sized + ToName {
    /// Every name that belongs to a value.
    fn all_names() -> (all: Vec<&'static str>)
        ensures
            forall|v: Self| is_listed(all@, #[trigger] v.name()),
    ;

    /// The value with the name `name`; where there is none, the name comes
    /// back.
    fn from_name(name: &str) -> (value: Result<Self, &str>)
        ensures
            match value {
                Ok(v) => v.name() == name@,
                Err(n) => n@ == name@ && forall|v: Self| #[trigger] v.name() != name@,
            },
    ;
}

/// A type of which a stand-in value can be had, for use in tests.
pub trait Placeholder: Sized {
    /// A stand-in value.
    fn placeholder() -> Self;
}

/// A type of which a stand-in value can be had for each index, the same in
/// every run, for use in tests.
pub trait PlaceholderIndexed: Sized {
    /// Whether the value is the stand-in value for `index`.
    spec fn is_placeholder_for(&self, index: u64) -> bool;

    /// The stand-in value for `index`.
    fn placeholder_indexed(index: u64) -> (value: Self)
        ensures
            value.is_placeholder_for(index),
    ;
}

/// The stand-in value of a type that has one for each index is the one for
/// index zero.
impl<T: PlaceholderIndexed> Placeholder for T {
    fn placeholder() -> (value: Self)
        ensures
            value.is_placeholder_for(0),
    {
        T::placeholder_indexed(0)
    }
}

/// The bytes of some parts, one part after the other.
pub open spec fn joined(parts: Seq<&[u8]>) -> Seq<u8>
    decreases parts.len(),
{
    if parts.len() == 0 {
        Seq::empty()
    } else {
        joined(parts.drop_last()) + parts.last()@
    }
}

/// The first `len` bytes that SHAKE256 gives for the seed `seed`.
pub uninterp spec fn shake256_of(seed: Seq<u8>, len: nat) -> Seq<u8>;

/// Computes `N` bytes of SHAKE256 output, by `sha3::Shake256`: the seed is
/// absorbed by `Update::update`, the output read by `XofReader::read`. The
/// contract claims only that the bytes are a function of the seed and of
/// their number, named `shake256_of`.
#[verifier::external_body]
fn shake256_raw<const N: usize>(seed: &[u8]) -> (out: [u8; N])
    ensures
        out@ == shake256_of(seed@, N as nat),
{
    let mut hasher = sha3::Shake256::default();
    sha3::digest::Update::update(&mut hasher, seed);
    let mut reader = sha3::digest::ExtendableOutput::finalize_xof(hasher);
    let mut out = [0u8; N];
    sha3::digest::XofReader::read(&mut reader, &mut out);
    out
}

/// `N` bytes that look random and depend on the seed alone: those that
/// SHAKE256 gives for the parts of the seed, one after the other.
pub fn placeholder_bytes<const N: usize>(seed_parts: &[&[u8]]) -> (bytes: [u8; N])
    ensures
        bytes@ == shake256_of(joined(seed_parts@), N as nat),
{
    let mut seed: Vec<u8> = Vec::new();
    let mut i: usize = 0;
    assert(seed_parts@.subrange(0, 0) =~= Seq::<&[u8]>::empty());
    while i < seed_parts.len()
        invariant
            i <= seed_parts@.len(),
            seed@ == joined(seed_parts@.subrange(0, i as int)),
        decreases seed_parts@.len() - i,
    {
        seed.extend_from_slice(seed_parts[i]);
        proof {
            let next = seed_parts@.subrange(0, i + 1);
            assert(next.drop_last() =~= seed_parts@.subrange(0, i as int));
            assert(seed@ =~= joined(next.drop_last()) + next.last()@);
        }
        i += 1;
    }
    assert(seed_parts@.subrange(0, i as int) =~= seed_parts@);
    shake256_raw::<N>(seed.as_slice())
}

} // verus!
