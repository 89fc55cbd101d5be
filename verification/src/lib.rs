//! Validation of transactions for a UTXO ledger: a stack-machine script
//! interpreter, the script templates and addresses built on it, the asset
//! accounting, and the transaction validator that ties them together.
//!
//! Every function of the library is verified against its contract. The
//! contracts are stated over mathematical views of the data: a script is
//! the sequence of the values of its entries, a transaction the sequences of
//! its inputs and outputs, an accumulator of assets a count of tokens and a
//! map from genesis hashes to amounts.
//!
//! What is taken on trust are the calls into other crates, each behind one
//! private function whose contract says what is claimed of it:
//!
//! - `hex::encode` and `hex::decode`, whose results are written out in
//!   `utils::hex_codec`;
//! - the digests of `sha3` and `sha2`, the signature check of
//!   `ed25519_dalek`, the quoting of strings by `serde_json` and the output
//!   of SHAKE256, of which only a name is given: the same input gives the
//!   same output;
//! - the decimal text of an integer, as `std` writes it.

pub mod constants;
pub mod crypto;
pub mod errors;
pub mod models;
pub mod primitives;
pub mod script;
pub mod utils;
pub mod validation;
