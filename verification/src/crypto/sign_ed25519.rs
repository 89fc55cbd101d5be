//! Ed25519 public keys and signatures, and the check of a signature.

use vstd::prelude::*;

verus! {

/// An Ed25519 public key: 32 bytes.
#[derive(Clone, Copy, Debug, PartialEq, Eq)]
pub struct PublicKey {
    bytes: [u8; 32],
}

/// An Ed25519 signature: 64 bytes.
#[derive(Clone, Copy, Debug, PartialEq, Eq)]
pub struct Signature {
    bytes: [u8; 64],
}

impl View for PublicKey {
    type V = Seq<u8>;

    closed spec fn view(&self) -> Seq<u8> {
        self.bytes@
    }
}

impl View for Signature {
    type V = Seq<u8>;

    closed spec fn view(&self) -> Seq<u8> {
        self.bytes@
    }
}

/// Copies the first `N` bytes of `slice` into an array.
fn array_of<const N: usize>(slice: &[u8]) -> (out: [u8; N])
    requires
        slice@.len() >= N,
    ensures
        out@ == slice@.subrange(0, N as int),
{
    let mut out: [u8; N] = [0u8; N];
    let mut i: usize = 0;
    while i < N
        invariant
            i <= N,
            slice@.len() >= N,
            forall|j: int| 0 <= j < i ==> out@[j] == slice@[j],
        decreases N - i,
    {
        out[i] = slice[i];
        i += 1;
    }
    assert(out@ =~= slice@.subrange(0, N as int));
    out
}

/// Whether two byte slices hold the same bytes.
pub fn same_bytes(a: &[u8], b: &[u8]) -> (same: bool)
    ensures
        same == (a@ == b@),
{
    if a.len() != b.len() {
        return false;
    }
    let mut i: usize = 0;
    while i < a.len()
        invariant
            i <= a@.len(),
            a@.len() == b@.len(),
            forall|j: int| 0 <= j < i ==> a@[j] == b@[j],
        decreases a@.len() - i,
    {
        if a[i] != b[i] {
            return false;
        }
        i += 1;
    }
    assert(a@ =~= b@);
    true
}

impl PublicKey {
    /// The key made of the bytes of `slice`, if there are 32 of them.
    pub fn from_slice(slice: &[u8]) -> (key: Option<PublicKey>)
        ensures
            key is Some <==> slice@.len() == 32,
            key is Some ==> key->0@ == slice@,
    {
        if slice.len() != 32 {
            return None;
        }
        let bytes: [u8; 32] = array_of::<32>(slice);
        assert(slice@.subrange(0, 32) =~= slice@);
        Some(PublicKey { bytes })
    }

    /// The bytes of the key.
    pub fn as_ref(&self) -> (bytes: &[u8])
        ensures
            bytes@ == self@,
    {
        self.bytes.as_slice()
    }

    /// Whether `other` is the same key.
    pub fn is_same(&self, other: &PublicKey) -> (same: bool)
        ensures
            same == (self@ == other@),
    {
        same_bytes(self.bytes.as_slice(), other.bytes.as_slice())
    }
}

impl Signature {
    /// The signature made of the bytes of `slice`, if there are 64 of them.
    pub fn from_slice(slice: &[u8]) -> (sig: Option<Signature>)
        ensures
            sig is Some <==> slice@.len() == 64,
            sig is Some ==> sig->0@ == slice@,
    {
        if slice.len() != 64 {
            return None;
        }
        let bytes: [u8; 64] = array_of::<64>(slice);
        assert(slice@.subrange(0, 64) =~= slice@);
        Some(Signature { bytes })
    }

    /// The bytes of the signature.
    pub fn as_ref(&self) -> (bytes: &[u8])
        ensures
            bytes@ == self@,
    {
        self.bytes.as_slice()
    }

    /// Whether `other` is the same signature.
    pub fn is_same(&self, other: &Signature) -> (same: bool)
        ensures
            same == (self@ == other@),
    {
        same_bytes(self.bytes.as_slice(), other.bytes.as_slice())
    }
}

/// The bytes of each of `keys`.
pub open spec fn key_bytes(keys: Seq<PublicKey>) -> Seq<Seq<u8>> {
    keys.map_values(|k: PublicKey| k@)
}

/// The bytes of each of `sigs`.
pub open spec fn signature_bytes(sigs: Seq<Signature>) -> Seq<Seq<u8>> {
    sigs.map_values(|s: Signature| s@)
}

/// Whether `sig` is accepted as a signature of `msg` under the public key
/// `pk`, all three given by their bytes.
pub uninterp spec fn ed25519_valid(sig: Seq<u8>, msg: Seq<u8>, pk: Seq<u8>) -> bool;

/// Checks a signature by `ed25519_dalek`: `VerifyingKey::from_bytes`, then
/// `Verifier::verify` on `Signature::from_bytes`. A key that does not decode
/// accepts nothing. The contract claims only that the answer is a function of
/// the three byte strings, named `ed25519_valid`.
#[verifier::external_body]
fn ed25519_verify_raw(sig: &[u8; 64], msg: &[u8], pk: &[u8; 32]) -> (valid: bool)
    ensures
        valid == ed25519_valid(sig@, msg@, pk@),
{
    match ed25519_dalek::VerifyingKey::from_bytes(pk) {
        Ok(key) => ed25519_dalek::Verifier::verify(
            &key,
            msg,
            &ed25519_dalek::Signature::from_bytes(sig),
        ).is_ok(),
        Err(_) => false,
    }
}

/// Whether `sig` is a valid signature of `msg` under `pk`.
pub fn verify_detached(sig: &Signature, msg: &[u8], pk: &PublicKey) -> (valid: bool)
    ensures
        valid == ed25519_valid(sig@, msg@, pk@),
{
    ed25519_verify_raw(&sig.bytes, msg, &pk.bytes)
}

} // verus!
