//! Limits and tags that every node has to agree on.

use vstd::prelude::*;

verus! {

/// First character of the text form of a transaction hash.
pub const TX_PREPEND: u8 = 0x67;

/// Number of characters in the text form of a transaction hash.
pub const TX_HASH_LENGTH: usize = 32;

/// First character of an address that stands for the hash of a script.
pub const P2SH_PREPEND: u8 = 0x48;

/// Number of characters of an address of the current scheme.
pub const STANDARD_ADDRESS_LENGTH: usize = 64;

/// Number of digest bytes kept by the first address scheme.
pub const V0_ADDRESS_LENGTH: usize = 16;

/// Version of the network that new transactions are made for.
pub const NETWORK_VERSION: u32 = 6;

/// Tag of the first address scheme.
pub const NETWORK_VERSION_V0: u64 = 0;

/// Tag of the interim address scheme.
pub const NETWORK_VERSION_TEMP: u64 = 99999;

/// Largest encoded size of a script, in bytes.
pub const MAX_SCRIPT_SIZE: usize = 10000;

/// Largest number of opcodes in a script.
pub const MAX_OPS_PER_SCRIPT: usize = 201;

/// Largest number of entries on the main and the alternate stack together.
pub const MAX_STACK_SIZE: usize = 1000;

/// Largest size of a byte string that a script may push, in bytes.
pub const MAX_SCRIPT_ITEM_SIZE: usize = 520;

/// Largest size of a byte string that a splice operation may build, in bytes.
pub const MAX_SCRIPT_ELEMENT_SIZE: usize = 520;

/// Largest size of the metadata of an item, in bytes.
pub const MAX_METADATA_BYTES: usize = 800;

/// Genesis hash given to items that are created without one of their own.
pub const ITEM_DEFAULT_DRS_TX_HASH: &'static str = "default_drs_tx_hash";

/// Length of an Ed25519 public key, in bytes.
pub const ED25519_PUBLIC_KEY_LEN: usize = 32;

/// Length of an Ed25519 signature, in bytes.
pub const ED25519_SIGNATURE_LEN: usize = 64;

} // verus!
